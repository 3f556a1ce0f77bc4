use zrb::ActiveBackupTask;
use zrb::BackupTarget;
use zrb::BackupTaskStage;
use zrb::BackupType;
use zrb::CorruptKind;
use zrb::Date;
use zrb::LatestSnapshotMap;
use zrb::PipelineError;
use zrb::ZstdCompressor;
use zrb::pathfmt::append_extension;
use zrb::pathfmt::format_date;
use zrb::pathfmt::temp_dir_path;

#[test]
fn test_format_date_pads_each_field() {
    let d = Date::new(2024, 6, 1).unwrap();
    assert_eq!(format_date(&d), "2024-06-01");

    let d = Date::new(7, 12, 31).unwrap();
    assert_eq!(format_date(&d), "0007-12-31");
}

#[test]
fn test_temp_dir_follows_convention() {
    let d = Date::new(2024, 6, 1).unwrap();
    assert_eq!(
        temp_dir_path("pool/data", BackupType::Full, &d),
        "/tmp/pool/data/Full_2024-06-01"
    );
    assert_eq!(temp_dir_path("tank", BackupType::Diff, &d), "/tmp/tank/Diff_2024-06-01");
    assert_eq!(temp_dir_path("tank", BackupType::Incr, &d), "/tmp/tank/Incr_2024-06-01");
}

#[test]
fn test_append_extension_composes_suffix_chain() {
    let split = append_extension("export.zfs", "part0");
    assert_eq!(split, "export.zfs.part0");
    let compressed = append_extension(&split, "zst");
    assert_eq!(compressed, "export.zfs.part0.zst");
    let encrypted = append_extension(&compressed, "age");
    assert_eq!(encrypted, "export.zfs.part0.zst.age");
}

#[test]
fn test_backup_type_labels() {
    assert_eq!(BackupType::Full.label(), "Full");
    assert_eq!(BackupType::Diff.label(), "Diff");
    assert_eq!(BackupType::Incr.label(), "Incr");
    assert_eq!(BackupType::default(), BackupType::Full);
}

#[test]
fn test_date_validity() {
    assert!(Date::new(2024, 1, 1).is_some());
    assert!(Date::new(9999, 12, 31).is_some());
    assert!(Date::new(10000, 1, 1).is_none());
    assert!(Date::new(2024, 0, 1).is_none());
    assert!(Date::new(2024, 13, 1).is_none());
    assert!(Date::new(2024, 1, 0).is_none());
    assert!(Date::new(2024, 1, 32).is_none());
}

#[test]
fn test_zstd_compressor_settings() {
    let c = ZstdCompressor::default();
    assert_eq!(c.compression_level(), 3);
    assert_eq!(c.get_extension(), "zst");

    let c = ZstdCompressor::new(19);
    assert_eq!(c.compression_level(), 19);
}

#[test]
fn test_default_records_are_empty() {
    let task = ActiveBackupTask::default();
    assert_eq!(task.base_snapshot, "");
    assert_eq!(task.ref_snapshot, "");
    assert_eq!(task.split_qty, 0);
    assert!(task.progress.snapshot_exported_name.is_empty());
    assert!(!task.progress.snapshot_tested);
    assert!(task.progress.split_hashes.is_empty());
    assert_eq!(task.progress.compressed, 0);
    assert_eq!(task.progress.encrypted, 0);
    assert_eq!(task.progress.uploaded, 0);
    assert_eq!(task.progress.cleanup, 0);
    assert!(!task.progress.verified);
    assert!(task.full_hash.is_empty());

    let target = BackupTarget::default();
    assert_eq!(target.backup_type, BackupType::Full);
    assert_eq!(target.dataset, "");

    let map = LatestSnapshotMap::default();
    assert!(map.is_empty());
}

#[test]
fn test_error_messages() {
    assert_eq!(PipelineError::EmptyQueue.message(), "Empty queue");
    assert_eq!(PipelineError::PreconditionMissing.message(), "Snapshot not exported yet");
    assert_eq!(
        PipelineError::EncryptionIntegrity.message(),
        "Decrypted file hash does not match original"
    );
    assert_eq!(PipelineError::VerifyMismatch.message(), "Full hash does not match stream hash");
    assert_eq!(PipelineError::CorruptState(CorruptKind::SplitCount).message(), "split");
    assert_eq!(
        PipelineError::CorruptState(CorruptKind::Stage(BackupTaskStage::Compress)).message(),
        "Error stage Compress"
    );
    assert_eq!(
        PipelineError::CorruptState(CorruptKind::Stage(BackupTaskStage::Upload)).message(),
        "Error stage Upload"
    );
    assert_eq!(PipelineError::Transformer("boom".to_string()).message(), "boom");
    assert_eq!(PipelineError::Persistence("disk gone".to_string()).message(), "disk gone");
}
