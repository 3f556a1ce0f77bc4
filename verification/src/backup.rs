//! Backup manager: the top-level dispatcher. One `run` call re-derives the
//! task's position from persisted state, performs exactly one stage-step for
//! the head-of-queue target through the injected transformers, commits that
//! step's progress, and returns.

use vstd::prelude::*;

use crate::errors::PipelineError;
use crate::model::ActiveBackupTask;
use crate::model::BackupStageStatus;
use crate::model::BackupTarget;
use crate::model::BackupTaskStage;
use crate::model::BackupType;
use crate::model::Date;
use crate::pathfmt::append_extension;
use crate::pathfmt::temp_dir_path;
use crate::pathfmt::temp_dir_str;
use crate::status::FileIo;
use crate::status::StatusManager;
use crate::status::restore_status_spec;
use crate::transformers::Cleaner;
use crate::transformers::Compressor;
use crate::transformers::Encryptor;
use crate::transformers::Hasher;
use crate::transformers::RemoteManager;
use crate::transformers::SnapshotManager;
use crate::transformers::Splitter;

verus! {

/// `after` is `before` with `progress` replaced by `p`.
pub open spec fn with_progress(t: ActiveBackupTask, p: BackupStageStatus) -> ActiveBackupTask {
    ActiveBackupTask { progress: p, ..t }
}

/// How one committed stage-step at split index `current` rewrites the
/// active task: exactly the stage's own progress field changes, to the
/// stage's committed value. Values that a transformer chose (the exported
/// name, a digest) are left open; the counters are pinned to `current + 1`,
/// and a committed export turns an empty exported name into a non-empty
/// one — an empty name is the record's encoding of "not yet exported".
pub open spec fn step_commit(
    stage: BackupTaskStage,
    current: u64,
    before: ActiveBackupTask,
    after: ActiveBackupTask,
) -> bool {
    match stage {
        BackupTaskStage::SnapshotExport => {
            &&& before.progress.snapshot_exported_name@.len() == 0
            &&& after.progress.snapshot_exported_name@.len() > 0
            &&& after == with_progress(
                before,
                BackupStageStatus {
                    snapshot_exported_name: after.progress.snapshot_exported_name,
                    ..before.progress
                },
            )
        },
        BackupTaskStage::SnapshotTest => after == (ActiveBackupTask {
            full_hash: after.full_hash,
            progress: BackupStageStatus { snapshot_tested: true, ..before.progress },
            ..before
        }),
        BackupTaskStage::Split => {
            &&& after.progress.split_hashes@.len() == before.progress.split_hashes@.len() + 1
            &&& after.progress.split_hashes@.drop_last() == before.progress.split_hashes@
            &&& after == with_progress(
                before,
                BackupStageStatus {
                    split_hashes: after.progress.split_hashes,
                    ..before.progress
                },
            )
        },
        BackupTaskStage::Compress => current < u64::MAX && after == with_progress(
            before,
            BackupStageStatus { compressed: (current + 1) as u64, ..before.progress },
        ),
        BackupTaskStage::Encrypt => current < u64::MAX && after == with_progress(
            before,
            BackupStageStatus { encrypted: (current + 1) as u64, ..before.progress },
        ),
        BackupTaskStage::Upload => current < u64::MAX && after == with_progress(
            before,
            BackupStageStatus { uploaded: (current + 1) as u64, ..before.progress },
        ),
        BackupTaskStage::Cleanup => current < u64::MAX && after == with_progress(
            before,
            BackupStageStatus { cleanup: (current + 1) as u64, ..before.progress },
        ),
        BackupTaskStage::Verify => after == with_progress(
            before,
            BackupStageStatus { verified: true, ..before.progress },
        ),
        BackupTaskStage::Done => after == before,
    }
}

/// `after` is the state `loaded` advanced by the one stage-step that
/// `restore_status` derived from `loaded` itself.
pub open spec fn advanced_by_one_step(
    queue: Seq<BackupTarget>,
    loaded: ActiveBackupTask,
    after: ActiveBackupTask,
) -> bool {
    match restore_status_spec(queue, loaded) {
        Ok(t) => step_commit(t.0, t.2, loaded, after),
        Err(_) => false,
    }
}

/// Byte-equality of two digests.
pub fn hashes_equal(a: &Vec<u8>, b: &Vec<u8>) -> (r: bool)
    ensures
        r == (a@ == b@),
{
    if a.len() != b.len() {
        return false;
    }
    let mut i: usize = 0;
    while i < a.len()
        invariant
            i <= a@.len(),
            a@.len() == b@.len(),
            forall|j: int| 0 <= j < i ==> a@[j] == b@[j],
        decreases a@.len() - i,
    {
        if a[i] != b[i] {
            return false;
        }
        i = i + 1;
    }
    proof {
        assert(a@ =~= b@);
    }
    true
}

/// Decides the encrypt stage's self-check from the two digests of the
/// round trip: the digest of the stage's input against the digest of the
/// decrypted ciphertext. Equal digests pass; unequal digests are the
/// `EncryptionIntegrity` failure, and nothing else is.
pub fn check_round_trip(original: &Vec<u8>, decrypted: &Vec<u8>) -> (r: Result<(), PipelineError>)
    ensures
        r is Ok <==> original@ == decrypted@,
        r matches Err(e) ==> e is EncryptionIntegrity,
{
    if hashes_equal(original, decrypted) {
        Ok(())
    } else {
        Err(PipelineError::EncryptionIntegrity)
    }
}

/// The dispatcher. Holds the status manager and one implementation of each
/// leaf transformer; stage handlers never mutate the queue.
pub struct BackupManager<
    IO: FileIo,
    SM: SnapshotManager,
    RM: RemoteManager,
    SP: Splitter,
    CP: Compressor,
    EN: Encryptor,
    HS: Hasher,
    CL: Cleaner,
> {
    status_mgr: StatusManager<IO>,
    snapshot_mgr: SM,
    remote_mgr: RM,
    splitter: SP,
    compressor: CP,
    encryptor: EN,
    hasher: HS,
    cleaner: CL,
}

impl<
    IO: FileIo,
    SM: SnapshotManager,
    RM: RemoteManager,
    SP: Splitter,
    CP: Compressor,
    EN: Encryptor,
    HS: Hasher,
    CL: Cleaner,
> BackupManager<IO, SM, RM, SP, CP, EN, HS, CL> {
    /// The status manager this dispatcher commits through.
    pub closed spec fn status(&self) -> StatusManager<IO> {
        self.status_mgr
    }

    /// Loads the persisted state and assembles the dispatcher.
    pub fn new(
        file_io: IO,
        snapshot_mgr: SM,
        remote_mgr: RM,
        splitter: SP,
        compressor: CP,
        encryptor: EN,
        hasher: HS,
        cleaner: CL,
    ) -> (r: Result<Self, PipelineError>)
        ensures
            r matches Err(e) ==> e is Persistence,
    {
        let status_mgr = match StatusManager::new(file_io) {
            Ok(s) => s,
            Err(e) => { return Err(e) },
        };
        Ok(
            BackupManager {
                status_mgr,
                snapshot_mgr,
                remote_mgr,
                splitter,
                compressor,
                encryptor,
                hasher,
                cleaner,
            },
        )
    }

    /// Dataset name of the head-of-queue target.
    fn get_dataset(&self) -> (r: String)
        requires
            self.status().queue().len() > 0,
        ensures
            r@ == self.status().queue()[0].dataset@,
    {
        self.status_mgr.get_target_queue()[0].dataset.clone()
    }

    /// Backup type of the head-of-queue target.
    fn get_backup_type(&self) -> (r: BackupType)
        requires
            self.status().queue().len() > 0,
        ensures
            r == self.status().queue()[0].backup_type,
    {
        self.status_mgr.get_target_queue()[0].backup_type
    }

    /// Date of the head-of-queue target.
    fn get_date(&self) -> (r: Date)
        requires
            self.status().queue().len() > 0,
        ensures
            r == self.status().queue()[0].date,
    {
        self.status_mgr.get_target_queue()[0].date
    }

    /// Base snapshot name of the active task.
    fn get_base_snapshot(&self) -> (r: String)
        ensures
            r@ == self.status().task().base_snapshot@,
    {
        self.status_mgr.get_active_task().base_snapshot.clone()
    }

    /// Reference snapshot name of the active task.
    fn get_ref_snapshot(&self) -> (r: String)
        ensures
            r@ == self.status().task().ref_snapshot@,
    {
        self.status_mgr.get_active_task().ref_snapshot.clone()
    }

    /// The task's temp directory, derived from the head target's fields.
    fn get_temp_dir(&self) -> (r: String)
        requires
            self.status().queue().len() > 0,
            self.status().queue()[0].date.year <= 9999,
            self.status().queue()[0].date.month <= 99,
            self.status().queue()[0].date.day <= 99,
        ensures
            r@ == temp_dir_str(
                self.status().queue()[0].dataset@,
                self.status().queue()[0].backup_type,
                self.status().queue()[0].date,
            ),
    {
        let dataset = self.get_dataset();
        let backup_type = self.get_backup_type();
        let date = self.get_date();
        temp_dir_path(dataset.as_str(), backup_type, &date)
    }

    /// Exported snapshot name of the active task, or `PreconditionMissing`
    /// when the export has not happened.
    fn get_exported_name(&self) -> (r: Result<String, PipelineError>)
        ensures
            match r {
                Ok(name) => name@ == self.status().task().progress.snapshot_exported_name@
                    && name@.len() > 0,
                Err(e) => e is PreconditionMissing
                    && self.status().task().progress.snapshot_exported_name@.len() == 0,
            },
    {
        let name = self.status_mgr.get_active_task().progress.snapshot_exported_name.clone();
        if name.as_str().is_empty() {
            Err(PipelineError::PreconditionMissing)
        } else {
            Ok(name)
        }
    }

    /// Performs exactly one stage-step for the head-of-queue target and
    /// commits its progress. The `auto` flag is reserved for caller policy;
    /// the orchestrator semantics are identical in both modes. On success
    /// the new active task is the loaded one advanced by the one step that
    /// `restore_status` derived from it.
    pub fn run(&mut self, _auto: bool) -> (r: Result<(), PipelineError>)
        ensures
            final(self).status().snapshot_map() == old(self).status().snapshot_map(),
            final(self).status().store() == old(self).status().store(),
            r is Ok ==> exists|loaded: ActiveBackupTask|
                #[trigger] advanced_by_one_step(
                    final(self).status().queue(),
                    loaded,
                    final(self).status().task(),
                ),
    {
        let (stage, _total, current) = match self.status_mgr.restore_status() {
            Ok(t) => t,
            Err(e) => { return Err(e) },
        };
        let ghost loaded = self.status_mgr.task();

        let step = match stage {
            BackupTaskStage::SnapshotExport => self.handle_snapshot_export(),
            BackupTaskStage::SnapshotTest => self.handle_snapshot_test(),
            BackupTaskStage::Split => self.handle_split(current),
            BackupTaskStage::Compress => self.handle_compress(current),
            BackupTaskStage::Encrypt => self.handle_encrypt(current),
            BackupTaskStage::Upload => self.handle_upload(current),
            BackupTaskStage::Cleanup => self.handle_cleanup(current),
            BackupTaskStage::Verify => self.handle_verify(),
            BackupTaskStage::Done => self.handle_done(),
        };
        match step {
            Ok(()) => {
                proof {
                    assert(advanced_by_one_step(self.status().queue(), loaded, self.status().task()));
                }
                Ok(())
            },
            Err(e) => Err(e),
        }
    }

    /// Export stage: serialize the snapshot into the temp directory and
    /// commit the exported file's path. A date that no `YYYY-MM-DD` name
    /// can carry is persisted-state corruption, reported before the
    /// exporter is called; an empty path from the exporter is rejected,
    /// since an empty name is the record's encoding of "not yet exported".
    fn handle_snapshot_export(&mut self) -> (r: Result<(), PipelineError>)
        requires
            old(self).status().queue().len() > 0,
            old(self).status().task().progress.snapshot_exported_name@.len() == 0,
        ensures
            final(self).status().queue() == old(self).status().queue(),
            final(self).status().snapshot_map() == old(self).status().snapshot_map(),
            final(self).status().store() == old(self).status().store(),
            r is Ok ==> step_commit(
                BackupTaskStage::SnapshotExport,
                0,
                old(self).status().task(),
                final(self).status().task(),
            ),
            r matches Err(e) ==> final(self).status().task() == old(self).status().task() || (e
                is Persistence && step_commit(
                BackupTaskStage::SnapshotExport,
                0,
                old(self).status().task(),
                final(self).status().task(),
            )),
            !(old(self).status().queue()[0].date.year <= 9999 && old(
                self,
            ).status().queue()[0].date.month <= 99 && old(self).status().queue()[0].date.day
                <= 99) ==> (r matches Err(e) && e is PreconditionMissing && final(self).status().task() == old(self).status().task()),
    {
        let date = self.get_date();
        if !(date.year <= 9999 && date.month <= 99 && date.day <= 99) {
            return Err(PipelineError::PreconditionMissing);
        }
        let out_dir = self.get_temp_dir();
        let dataset = self.get_dataset();
        let base_snapshot = self.get_base_snapshot();
        let ref_snapshot = self.get_ref_snapshot();

        let filename = match self.snapshot_mgr.export(
            out_dir.as_str(),
            dataset.as_str(),
            base_snapshot.as_str(),
            ref_snapshot.as_str(),
        ) {
            Ok(f) => f,
            Err(e) => { return Err(e) },
        };
        if filename.as_str().is_empty() {
            return Err(PipelineError::Transformer("Exporter returned an empty path".to_owned()));
        }
        self.status_mgr.update_stage_status_snapshot_exported(filename)
    }

    /// Test stage: check the exported file, record its full digest, and
    /// commit the tested flag. Partial progress — the digest committed but
    /// the flag's commit failed — can only be left behind by a store
    /// failure, and a later attempt recomputes the digest.
    fn handle_snapshot_test(&mut self) -> (r: Result<(), PipelineError>)
        ensures
            final(self).status().queue() == old(self).status().queue(),
            final(self).status().snapshot_map() == old(self).status().snapshot_map(),
            final(self).status().store() == old(self).status().store(),
            r is Ok ==> step_commit(
                BackupTaskStage::SnapshotTest,
                0,
                old(self).status().task(),
                final(self).status().task(),
            ),
            r matches Err(e) ==> final(self).status().task() == old(self).status().task() || (e
                is Persistence && (final(self).status().task() == (ActiveBackupTask {
                full_hash: final(self).status().task().full_hash,
                ..old(self).status().task()
            }) || step_commit(
                BackupTaskStage::SnapshotTest,
                0,
                old(self).status().task(),
                final(self).status().task(),
            ))),
            old(self).status().task().progress.snapshot_exported_name@.len() == 0 ==> (r matches
                Err(e) && e is PreconditionMissing && final(self).status().task() == old(
                self,
            ).status().task()),
    {
        let snapshot_filename = match self.get_exported_name() {
            Ok(n) => n,
            Err(e) => { return Err(e) },
        };
        let base_snapshot = self.get_base_snapshot();
        match self.snapshot_mgr.verify(base_snapshot.as_str(), snapshot_filename.as_str()) {
            Ok(()) => (),
            Err(e) => { return Err(e) },
        }
        self.hasher.reset();
        match self.hasher.cal_file(snapshot_filename.as_str()) {
            Ok(()) => (),
            Err(e) => { return Err(e) },
        }
        let hash = self.hasher.get_digest();
        match self.status_mgr.update_full_hash(hash) {
            Ok(()) => (),
            Err(e) => { return Err(e) },
        }
        self.status_mgr.update_stage_status_snapshot_tested(true)
    }

    /// Split stage: produce the split at `current`, hash it, and commit the
    /// appended split digest.
    fn handle_split(&mut self, current: u64) -> (r: Result<(), PipelineError>)
        ensures
            final(self).status().queue() == old(self).status().queue(),
            final(self).status().snapshot_map() == old(self).status().snapshot_map(),
            final(self).status().store() == old(self).status().store(),
            r is Ok ==> step_commit(
                BackupTaskStage::Split,
                current,
                old(self).status().task(),
                final(self).status().task(),
            ),
            r matches Err(e) ==> final(self).status().task() == old(self).status().task() || (e
                is Persistence && step_commit(
                BackupTaskStage::Split,
                current,
                old(self).status().task(),
                final(self).status().task(),
            )),
            old(self).status().task().progress.snapshot_exported_name@.len() == 0 ==> (r matches
                Err(e) && e is PreconditionMissing && final(self).status().task() == old(
                self,
            ).status().task()),
    {
        let snapshot_filename = match self.get_exported_name() {
            Ok(n) => n,
            Err(e) => { return Err(e) },
        };
        let filename = match self.splitter.split(snapshot_filename.as_str(), current) {
            Ok(f) => f,
            Err(e) => { return Err(e) },
        };
        self.hasher.reset();
        match self.hasher.cal_file(filename.as_str()) {
            Ok(()) => (),
            Err(e) => { return Err(e) },
        }
        let hash = self.hasher.get_digest();
        let r = self.status_mgr.update_stage_status_split_hashes(hash);
        proof {
            assert(self.status().task().progress.split_hashes@.drop_last() =~= old(
                self,
            ).status().task().progress.split_hashes@);
        }
        r
    }

    /// Compress stage: compress the split at `current`, check the result,
    /// and commit the compressed counter as `current + 1`.
    fn handle_compress(&mut self, current: u64) -> (r: Result<(), PipelineError>)
        requires
            current < u64::MAX,
        ensures
            final(self).status().queue() == old(self).status().queue(),
            final(self).status().snapshot_map() == old(self).status().snapshot_map(),
            final(self).status().store() == old(self).status().store(),
            r is Ok ==> step_commit(
                BackupTaskStage::Compress,
                current,
                old(self).status().task(),
                final(self).status().task(),
            ),
            r matches Err(e) ==> final(self).status().task() == old(self).status().task() || (e
                is Persistence && step_commit(
                BackupTaskStage::Compress,
                current,
                old(self).status().task(),
                final(self).status().task(),
            )),
            old(self).status().task().progress.snapshot_exported_name@.len() == 0 ==> (r matches
                Err(e) && e is PreconditionMissing && final(self).status().task() == old(
                self,
            ).status().task()),
    {
        let snapshot_filename = match self.get_exported_name() {
            Ok(n) => n,
            Err(e) => { return Err(e) },
        };
        let extension = self.splitter.get_extension(current);
        let filepath = append_extension(snapshot_filename.as_str(), extension.as_str());
        let out_filepath = match self.compressor.compress(filepath.as_str()) {
            Ok(f) => f,
            Err(e) => { return Err(e) },
        };
        match self.compressor.verify(out_filepath.as_str()) {
            Ok(()) => (),
            Err(e) => { return Err(e) },
        }
        self.status_mgr.update_stage_status_compressed(current + 1)
    }

    /// Encrypt stage: encrypt the compressed split at `current`, decrypt it
    /// again, compare digests, and commit the encrypted counter as
    /// `current + 1`. The digests are the hasher's values, so the comparison's
    /// verdict is stated where the values are in hand: `check_round_trip`
    /// passes equal digests and makes unequal ones the `EncryptionIntegrity`
    /// failure, catching key-material corruption before opaque ciphertext
    /// is uploaded.
    fn handle_encrypt(&mut self, current: u64) -> (r: Result<(), PipelineError>)
        requires
            current < u64::MAX,
        ensures
            final(self).status().queue() == old(self).status().queue(),
            final(self).status().snapshot_map() == old(self).status().snapshot_map(),
            final(self).status().store() == old(self).status().store(),
            r is Ok ==> step_commit(
                BackupTaskStage::Encrypt,
                current,
                old(self).status().task(),
                final(self).status().task(),
            ),
            r matches Err(e) ==> final(self).status().task() == old(self).status().task() || (e
                is Persistence && step_commit(
                BackupTaskStage::Encrypt,
                current,
                old(self).status().task(),
                final(self).status().task(),
            )),
            old(self).status().task().progress.snapshot_exported_name@.len() == 0 ==> (r matches
                Err(e) && e is PreconditionMissing && final(self).status().task() == old(
                self,
            ).status().task()),
    {
        let snapshot_filename = match self.get_exported_name() {
            Ok(n) => n,
            Err(e) => { return Err(e) },
        };
        let split_extension = self.splitter.get_extension(current);
        let compress_extension = self.compressor.get_extension();
        let split_path = append_extension(snapshot_filename.as_str(), split_extension.as_str());
        let filepath = append_extension(split_path.as_str(), compress_extension.as_str());

        self.hasher.reset();
        match self.hasher.cal_file(filepath.as_str()) {
            Ok(()) => (),
            Err(e) => { return Err(e) },
        }
        let ori_hash = self.hasher.get_digest();
        let out_filepath = match self.encryptor.encrypt(filepath.as_str()) {
            Ok(f) => f,
            Err(e) => { return Err(e) },
        };
        let dec_filepath = match self.encryptor.decrypt(out_filepath.as_str()) {
            Ok(f) => f,
            Err(e) => { return Err(e) },
        };
        self.hasher.reset();
        match self.hasher.cal_file(dec_filepath.as_str()) {
            Ok(()) => (),
            Err(e) => { return Err(e) },
        }
        let dec_hash = self.hasher.get_digest();
        match check_round_trip(&ori_hash, &dec_hash) {
            Ok(()) => (),
            Err(e) => { return Err(e) },
        }
        self.status_mgr.update_stage_status_encrypted(current + 1)
    }

    /// Upload stage: send the encrypted split at `current` to remote
    /// storage and commit the uploaded counter as `current + 1`.
    fn handle_upload(&mut self, current: u64) -> (r: Result<(), PipelineError>)
        requires
            current < u64::MAX,
        ensures
            final(self).status().queue() == old(self).status().queue(),
            final(self).status().snapshot_map() == old(self).status().snapshot_map(),
            final(self).status().store() == old(self).status().store(),
            r is Ok ==> step_commit(
                BackupTaskStage::Upload,
                current,
                old(self).status().task(),
                final(self).status().task(),
            ),
            r matches Err(e) ==> final(self).status().task() == old(self).status().task() || (e
                is Persistence && step_commit(
                BackupTaskStage::Upload,
                current,
                old(self).status().task(),
                final(self).status().task(),
            )),
            old(self).status().task().progress.snapshot_exported_name@.len() == 0 ==> (r matches
                Err(e) && e is PreconditionMissing && final(self).status().task() == old(
                self,
            ).status().task()),
    {
        let filepath = match self.encrypted_split_path(current) {
            Ok(f) => f,
            Err(e) => { return Err(e) },
        };
        match self.remote_mgr.upload(filepath.as_str(), filepath.as_str(), None, None) {
            Ok(()) => (),
            Err(e) => { return Err(e) },
        }
        self.status_mgr.update_stage_status_uploaded(current + 1)
    }

    /// Cleanup stage: unlink the encrypted split at `current` and commit
    /// the cleanup counter as `current + 1`.
    fn handle_cleanup(&mut self, current: u64) -> (r: Result<(), PipelineError>)
        requires
            current < u64::MAX,
        ensures
            final(self).status().queue() == old(self).status().queue(),
            final(self).status().snapshot_map() == old(self).status().snapshot_map(),
            final(self).status().store() == old(self).status().store(),
            r is Ok ==> step_commit(
                BackupTaskStage::Cleanup,
                current,
                old(self).status().task(),
                final(self).status().task(),
            ),
            r matches Err(e) ==> final(self).status().task() == old(self).status().task() || (e
                is Persistence && step_commit(
                BackupTaskStage::Cleanup,
                current,
                old(self).status().task(),
                final(self).status().task(),
            )),
            old(self).status().task().progress.snapshot_exported_name@.len() == 0 ==> (r matches
                Err(e) && e is PreconditionMissing && final(self).status().task() == old(
                self,
            ).status().task()),
    {
        let filepath = match self.encrypted_split_path(current) {
            Ok(f) => f,
            Err(e) => { return Err(e) },
        };
        match self.cleaner.remove_file(filepath.as_str()) {
            Ok(()) => (),
            Err(e) => { return Err(e) },
        }
        self.status_mgr.update_stage_status_cleanup(current + 1)
    }

    /// The full path of the encrypted split at `current`: the exported base
    /// name with the split, compress and encrypt suffixes composed on.
    fn encrypted_split_path(&self, current: u64) -> (r: Result<String, PipelineError>)
        ensures
            match r {
                Ok(_) => self.status().task().progress.snapshot_exported_name@.len() > 0,
                Err(e) => e is PreconditionMissing
                    && self.status().task().progress.snapshot_exported_name@.len() == 0,
            },
    {
        let snapshot_filename = match self.get_exported_name() {
            Ok(n) => n,
            Err(e) => { return Err(e) },
        };
        let split_extension = self.splitter.get_extension(current);
        let compress_extension = self.compressor.get_extension();
        let encrypt_extension = self.encryptor.get_extension();
        let split_path = append_extension(snapshot_filename.as_str(), split_extension.as_str());
        let compressed_path = append_extension(split_path.as_str(), compress_extension.as_str());
        Ok(append_extension(compressed_path.as_str(), encrypt_extension.as_str()))
    }

    /// Verify stage: compare the full-file digest against the last split
    /// digest and commit the verified flag. A mismatch is exactly the
    /// `VerifyMismatch` failure and commits nothing; a task with no
    /// recorded split digest cannot be verified at all.
    fn handle_verify(&mut self) -> (r: Result<(), PipelineError>)
        ensures
            final(self).status().queue() == old(self).status().queue(),
            final(self).status().snapshot_map() == old(self).status().snapshot_map(),
            final(self).status().store() == old(self).status().store(),
            r is Ok ==> {
                &&& old(self).status().task().progress.split_hashes@.len() > 0
                &&& old(self).status().task().full_hash@ == old(
                    self,
                ).status().task().progress.split_hashes@.last()@
                &&& step_commit(
                    BackupTaskStage::Verify,
                    0,
                    old(self).status().task(),
                    final(self).status().task(),
                )
            },
            r matches Err(e) ==> final(self).status().task() == old(self).status().task() || (e
                is Persistence && step_commit(
                BackupTaskStage::Verify,
                0,
                old(self).status().task(),
                final(self).status().task(),
            )),
            old(self).status().task().progress.split_hashes@.len() == 0 ==> (r matches Err(e) && e
                is PreconditionMissing),
            old(self).status().task().progress.split_hashes@.len() > 0 && old(
                self,
            ).status().task().full_hash@ != old(
                self,
            ).status().task().progress.split_hashes@.last()@ ==> (r matches Err(e) && e
                is VerifyMismatch && final(self).status().task() == old(self).status().task()),
            r matches Err(e) && e is VerifyMismatch ==> old(
                self,
            ).status().task().progress.split_hashes@.len() > 0 && old(
                self,
            ).status().task().full_hash@ != old(
                self,
            ).status().task().progress.split_hashes@.last()@,
    {
        let task = self.status_mgr.get_active_task();
        let n = task.progress.split_hashes.len();
        if n == 0 {
            return Err(PipelineError::PreconditionMissing);
        }
        let full_hash = task.full_hash.clone();
        let stream_hash = task.progress.split_hashes[n - 1].clone();
        if !hashes_equal(&full_hash, &stream_hash) {
            return Err(PipelineError::VerifyMismatch);
        }
        self.status_mgr.update_stage_status_verified(true)
    }

    /// Done: nothing to do; an outer loop dequeues the finished target and
    /// resets the active task.
    fn handle_done(&mut self) -> (r: Result<(), PipelineError>)
        ensures
            *final(self) == *old(self),
            r is Ok,
    {
        Ok(())
    }
}

} // verus!
