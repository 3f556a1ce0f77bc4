//! Orchestrator for a resumable, crash-tolerant snapshot backup pipeline.
//!
//! A dataset snapshot flows through a fixed sequence of stages — export,
//! test, split, compress, encrypt, upload, cleanup, verify — with progress
//! persisted after every stage, so that an interrupted run resumes from the
//! exact stage and split index last committed. The persisted progress record
//! is itself the program counter: `restore_status` derives the next stage
//! from it alone.

pub mod backup;
pub mod compression;
pub mod errors;
pub mod laws;
pub mod model;
pub mod pathfmt;
pub mod status;
pub mod transformers;

pub use backup::BackupManager;
pub use compression::ZstdCompressor;
pub use errors::CorruptKind;
pub use errors::PipelineError;
pub use model::ActiveBackupTask;
pub use model::BackupStageStatus;
pub use model::BackupTarget;
pub use model::BackupTargetQueue;
pub use model::BackupTaskStage;
pub use model::BackupType;
pub use model::Date;
pub use model::LatestSnapshotEntry;
pub use model::LatestSnapshotInfo;
pub use model::LatestSnapshotMap;
pub use status::FileIo;
pub use status::StatusManager;
pub use transformers::Cleaner;
pub use transformers::Compressor;
pub use transformers::Encryptor;
pub use transformers::Hasher;
pub use transformers::Metadata;
pub use transformers::RemoteManager;
pub use transformers::SnapshotManager;
pub use transformers::Splitter;
pub use transformers::Tags;
