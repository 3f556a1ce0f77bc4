//! Data model of the backup pipeline: backup types, stage names, the
//! per-task progress record, the active task, the target queue and the
//! latest-snapshot bookkeeping.

use vstd::prelude::*;

verus! {

/// The kind of backup a target asks for.
#[derive(Debug, Clone, Copy, PartialEq, Eq, Structural)]
pub enum BackupType {
    /// Full backup
    Full,
    /// Differential backup
    Diff,
    /// Incremental backup
    Incr,
}

impl Default for BackupType {
    fn default() -> (r: Self)
        ensures
            r == BackupType::Full,
    {
        BackupType::Full
    }
}

/// The label under which a backup type appears in file-system paths.
pub open spec fn backup_type_label(t: BackupType) -> Seq<char> {
    match t {
        BackupType::Full => "Full"@,
        BackupType::Diff => "Diff"@,
        BackupType::Incr => "Incr"@,
    }
}

impl BackupType {
    /// The type's path label as a string slice.
    pub fn label(&self) -> (r: &'static str)
        ensures
            r@ == backup_type_label(*self),
    {
        match self {
            BackupType::Full => "Full",
            BackupType::Diff => "Diff",
            BackupType::Incr => "Incr",
        }
    }
}

/// The stages a task passes through, in execution order.
#[derive(Debug, Clone, Copy, PartialEq, Eq, Structural)]
pub enum BackupTaskStage {
    SnapshotExport,
    SnapshotTest,
    Split,
    Compress,
    Encrypt,
    Upload,
    Cleanup,
    Verify,
    Done,
}

/// A content digest: an opaque byte string, equal iff byte-equal.
pub type Hash = Vec<u8>;

/// A calendar date, the only part of a target's timestamp that the
/// orchestrator reads (it names the task's temp directory by it).
#[derive(Debug, Clone, Copy, PartialEq, Eq, Structural)]
pub struct Date {
    pub year: u64,
    pub month: u64,
    pub day: u64,
}

impl Date {
    /// A plausible calendar date that also fits the `YYYY-MM-DD` layout.
    pub open spec fn is_valid(self) -> bool {
        &&& self.year <= 9999
        &&& 1 <= self.month <= 12
        &&& 1 <= self.day <= 31
    }

    /// Builds a date, rejecting one that no `YYYY-MM-DD` name can carry.
    pub fn new(year: u64, month: u64, day: u64) -> (r: Option<Date>)
        ensures
            r is Some <==> (Date { year, month, day }).is_valid(),
            r matches Some(d) ==> d == (Date { year, month, day }),
    {
        if year <= 9999 && 1 <= month && month <= 12 && 1 <= day && day <= 31 {
            Some(Date { year, month, day })
        } else {
            None
        }
    }
}

impl Default for Date {
    fn default() -> (r: Self)
        ensures
            r == (Date { year: 1970, month: 1, day: 1 }),
    {
        Date { year: 1970, month: 1, day: 1 }
    }
}

/// Per-task progress record. The persisted value of this record is the
/// pipeline's program counter: the next stage is derived from it alone.
#[derive(Debug, Clone)]
pub struct BackupStageStatus {
    /// Exported snapshot file name; empty iff the export has not happened.
    pub snapshot_exported_name: String,
    /// Whether the exported snapshot passed its test.
    pub snapshot_tested: bool,
    /// One digest per split produced so far, in split order.
    pub split_hashes: Vec<Hash>,
    /// Number of splits that have been compressed.
    pub compressed: u64,
    /// Number of splits that have been encrypted.
    pub encrypted: u64,
    /// Number of splits that have been uploaded.
    pub uploaded: u64,
    /// Number of splits whose local intermediates were removed.
    pub cleanup: u64,
    /// Whether the final hash verification succeeded.
    pub verified: bool,
}

impl Default for BackupStageStatus {
    fn default() -> (r: Self)
        ensures
            r.snapshot_exported_name@.len() == 0,
            r.snapshot_tested == false,
            r.split_hashes@ == Seq::<Hash>::empty(),
            r.compressed == 0,
            r.encrypted == 0,
            r.uploaded == 0,
            r.cleanup == 0,
            r.verified == false,
    {
        BackupStageStatus {
            snapshot_exported_name: String::new(),
            snapshot_tested: false,
            split_hashes: Vec::new(),
            compressed: 0,
            encrypted: 0,
            uploaded: 0,
            cleanup: 0,
            verified: false,
        }
    }
}

/// The singleton in-flight task for the head-of-queue target.
#[derive(Debug, Clone)]
pub struct ActiveBackupTask {
    pub base_snapshot: String,
    pub ref_snapshot: String,
    /// Total number of splits the exported stream is expected to yield.
    pub split_qty: u64,
    pub progress: BackupStageStatus,
    /// Digest of the whole exported snapshot file.
    pub full_hash: Hash,
}

impl Default for ActiveBackupTask {
    fn default() -> (r: Self)
        ensures
            r.base_snapshot@.len() == 0,
            r.ref_snapshot@.len() == 0,
            r.split_qty == 0,
            r.progress.snapshot_exported_name@.len() == 0,
            r.progress.snapshot_tested == false,
            r.progress.split_hashes@ == Seq::<Hash>::empty(),
            r.progress.compressed == 0,
            r.progress.encrypted == 0,
            r.progress.uploaded == 0,
            r.progress.cleanup == 0,
            r.progress.verified == false,
            r.full_hash@ == Seq::<u8>::empty(),
    {
        ActiveBackupTask {
            base_snapshot: String::new(),
            ref_snapshot: String::new(),
            split_qty: 0,
            progress: BackupStageStatus::default(),
            full_hash: Vec::new(),
        }
    }
}

/// A unit of work: one dataset to back up on one date.
#[derive(Debug, Clone)]
pub struct BackupTarget {
    /// Target date
    pub date: Date,
    /// Backup type
    pub backup_type: BackupType,
    /// Dataset name
    pub dataset: String,
}

impl Default for BackupTarget {
    fn default() -> (r: Self)
        ensures
            r.date == (Date { year: 1970, month: 1, day: 1 }),
            r.backup_type == BackupType::Full,
            r.dataset@.len() == 0,
    {
        BackupTarget { date: Date::default(), backup_type: BackupType::Full, dataset: String::new() }
    }
}

/// FIFO queue of pending targets; only the head is ever executed.
pub type BackupTargetQueue = std::collections::VecDeque<BackupTarget>;

/// The most recent snapshot recorded for one dataset and backup type.
#[derive(Debug, Clone)]
pub struct LatestSnapshotInfo {
    /// Date of the latest snapshot
    pub update: Date,
    /// Dataset snapshot name
    pub snapshot: String,
}

impl Default for LatestSnapshotInfo {
    fn default() -> (r: Self)
        ensures
            r.update == (Date { year: 1970, month: 1, day: 1 }),
            r.snapshot@.len() == 0,
    {
        LatestSnapshotInfo { update: Date::default(), snapshot: String::new() }
    }
}

/// One row of the latest-snapshot table.
#[derive(Debug, Clone)]
pub struct LatestSnapshotEntry {
    pub dataset: String,
    pub backup_type: BackupType,
    pub info: LatestSnapshotInfo,
}

/// Latest-snapshot table: dataset name and backup type to latest snapshot.
/// The orchestrator only carries this record through; a scheduler layer
/// outside the orchestrator writes it.
#[derive(Debug, Clone)]
pub struct LatestSnapshotMap {
    pub entries: Vec<LatestSnapshotEntry>,
}

impl LatestSnapshotMap {
    /// No two rows name the same dataset and backup type.
    pub open spec fn keys_unique(self) -> bool {
        forall|i: int, j: int|
            0 <= i < j < self.entries@.len() ==> !(self.entries@[i].dataset@
                == self.entries@[j].dataset@ && self.entries@[i].backup_type
                == self.entries@[j].backup_type)
    }

    /// Whether the table has no rows.
    pub fn is_empty(&self) -> (r: bool)
        ensures
            r == (self.entries@.len() == 0),
    {
        self.entries.len() == 0
    }
}

impl Default for LatestSnapshotMap {
    fn default() -> (r: Self)
        ensures
            r.entries@ == Seq::<LatestSnapshotEntry>::empty(),
            r.keys_unique(),
    {
        LatestSnapshotMap { entries: Vec::new() }
    }
}

} // verus!
