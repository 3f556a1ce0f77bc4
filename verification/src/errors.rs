//! Error taxonomy of the pipeline. Every failure that `run` or the status
//! manager can surface is one of these variants; `message` gives the
//! human-readable text of each.

use vstd::prelude::*;

use crate::model::BackupTaskStage;

verus! {

/// How a persisted progress record contradicts itself.
#[derive(Debug, Clone, Copy, PartialEq, Eq, Structural)]
pub enum CorruptKind {
    /// More split hashes recorded than splits expected.
    SplitCount,
    /// A stage counter exceeds the number of splits produced.
    Stage(BackupTaskStage),
}

/// A failure surfaced by the orchestrator or by one of its collaborators.
#[derive(Debug, Clone)]
pub enum PipelineError {
    /// `dequeue_target` on an empty queue.
    EmptyQueue,
    /// A stage needed persisted context that is absent (possible only
    /// under persisted-state corruption).
    PreconditionMissing,
    /// The encrypt stage's decrypt round-trip produced a different digest.
    EncryptionIntegrity,
    /// The final full-file digest does not match the recorded stream digest.
    VerifyMismatch,
    /// The persisted progress record contradicts itself; the task cannot
    /// advance without operator intervention.
    CorruptState(CorruptKind),
    /// A leaf transformer (exporter, splitter, compressor, encryptor,
    /// hasher, uploader, cleaner) failed.
    Transformer(String),
    /// The persistence store failed to load or save a blob.
    Persistence(String),
}

/// The message text of a self-contradiction report.
pub open spec fn corrupt_message(k: CorruptKind) -> Seq<char> {
    match k {
        CorruptKind::SplitCount => "split"@,
        CorruptKind::Stage(s) => match s {
            BackupTaskStage::SnapshotExport => "Error stage SnapshotExport"@,
            BackupTaskStage::SnapshotTest => "Error stage SnapshotTest"@,
            BackupTaskStage::Split => "Error stage Split"@,
            BackupTaskStage::Compress => "Error stage Compress"@,
            BackupTaskStage::Encrypt => "Error stage Encrypt"@,
            BackupTaskStage::Upload => "Error stage Upload"@,
            BackupTaskStage::Cleanup => "Error stage Cleanup"@,
            BackupTaskStage::Verify => "Error stage Verify"@,
            BackupTaskStage::Done => "Error stage Done"@,
        },
    }
}

/// The message text of each error.
pub open spec fn error_message(e: PipelineError) -> Seq<char> {
    match e {
        PipelineError::EmptyQueue => "Empty queue"@,
        PipelineError::PreconditionMissing => "Snapshot not exported yet"@,
        PipelineError::EncryptionIntegrity => "Decrypted file hash does not match original"@,
        PipelineError::VerifyMismatch => "Full hash does not match stream hash"@,
        PipelineError::CorruptState(k) => corrupt_message(k),
        PipelineError::Transformer(m) => m@,
        PipelineError::Persistence(m) => m@,
    }
}

impl PipelineError {
    /// The human-readable message of this error.
    pub fn message(&self) -> (r: String)
        ensures
            r@ == error_message(*self),
    {
        match self {
            PipelineError::EmptyQueue => "Empty queue".to_owned(),
            PipelineError::PreconditionMissing => "Snapshot not exported yet".to_owned(),
            PipelineError::EncryptionIntegrity => "Decrypted file hash does not match original"
                .to_owned(),
            PipelineError::VerifyMismatch => "Full hash does not match stream hash".to_owned(),
            PipelineError::CorruptState(k) => match k {
                CorruptKind::SplitCount => "split".to_owned(),
                CorruptKind::Stage(s) => match s {
                    BackupTaskStage::SnapshotExport => "Error stage SnapshotExport".to_owned(),
                    BackupTaskStage::SnapshotTest => "Error stage SnapshotTest".to_owned(),
                    BackupTaskStage::Split => "Error stage Split".to_owned(),
                    BackupTaskStage::Compress => "Error stage Compress".to_owned(),
                    BackupTaskStage::Encrypt => "Error stage Encrypt".to_owned(),
                    BackupTaskStage::Upload => "Error stage Upload".to_owned(),
                    BackupTaskStage::Cleanup => "Error stage Cleanup".to_owned(),
                    BackupTaskStage::Verify => "Error stage Verify".to_owned(),
                    BackupTaskStage::Done => "Error stage Done".to_owned(),
                },
            },
            PipelineError::Transformer(m) => m.clone(),
            PipelineError::Persistence(m) => m.clone(),
        }
    }
}

} // verus!
