//! Status manager: the in-memory mirror of the three persisted blobs
//! (target queue, active task, latest-snapshot table), the resumption
//! function `restore_status` that derives the next stage purely from that
//! state, and the per-stage commit mutators.

use vstd::prelude::*;

use crate::errors::CorruptKind;
use crate::errors::PipelineError;
use crate::model::ActiveBackupTask;
use crate::model::BackupTarget;
use crate::model::BackupTargetQueue;
use crate::model::BackupTaskStage;
use crate::model::LatestSnapshotMap;

verus! {

/// Durable blob-at-a-time store for the three persisted records.
///
/// Implementations serialize each record to stable storage; a load returns
/// the stored record or the type's default when nothing was stored yet.
/// This is a collaborator contract: implementations live outside the
/// verified library (a file-backed store, an in-memory fake), and are
/// expected to report every failure as `Persistence` and to make saves
/// atomic-or-fail. Nothing can be assumed about a loaded value: the store
/// returns whatever the backing medium holds.
pub trait FileIo {
    fn load_target_queue(&self) -> (r: Result<BackupTargetQueue, PipelineError>)
        ensures
            r matches Err(e) ==> e is Persistence,
    ;

    fn load_active_tasks(&self) -> (r: Result<ActiveBackupTask, PipelineError>)
        ensures
            r matches Err(e) ==> e is Persistence,
    ;

    fn load_latest_snapshot_map(&self) -> (r: Result<LatestSnapshotMap, PipelineError>)
        ensures
            r matches Err(e) ==> e is Persistence,
    ;

    fn save_target_queue(&self, queue: &BackupTargetQueue) -> (r: Result<(), PipelineError>)
        ensures
            r matches Err(e) ==> e is Persistence,
    ;

    fn save_active_tasks(&self, task: &ActiveBackupTask) -> (r: Result<(), PipelineError>)
        ensures
            r matches Err(e) ==> e is Persistence,
    ;

    fn save_latest_snapshot_map(&self, map: &LatestSnapshotMap) -> (r: Result<
        (),
        PipelineError,
    >)
        ensures
            r matches Err(e) ==> e is Persistence,
    ;
}

/// Number of splits the task has produced so far.
pub open spec fn produced_of(task: ActiveBackupTask) -> int {
    task.progress.split_hashes@.len() as int
}

/// The resumption decision derived from the persisted state: the next
/// `(stage, total, current)` to execute, or the way in which the record
/// contradicts itself.
///
/// `total` is the number of work units the coming stage iterates over and
/// `current` the split index the next operation must consume.
pub open spec fn restore_status_spec(queue: Seq<BackupTarget>, task: ActiveBackupTask) -> Result<
    (BackupTaskStage, u64, u64),
    CorruptKind,
> {
    if queue.len() == 0 {
        Ok((BackupTaskStage::Done, 0u64, 0u64))
    } else {
        let p = task.progress;
        if p.snapshot_exported_name@.len() == 0 {
            Ok((BackupTaskStage::SnapshotExport, 0u64, 0u64))
        } else if !p.snapshot_tested {
            Ok((BackupTaskStage::SnapshotTest, 0u64, 0u64))
        } else {
            let produced = p.split_hashes@.len() as int;
            let produced_count = p.split_hashes@.len() as u64;
            let total = task.split_qty;
            if produced > total {
                Err(CorruptKind::SplitCount)
            } else if produced == 0 {
                Ok((BackupTaskStage::Split, total, 0u64))
            } else if p.compressed < produced {
                Ok((BackupTaskStage::Compress, produced_count, p.compressed))
            } else if p.compressed > produced {
                Err(CorruptKind::Stage(BackupTaskStage::Compress))
            } else if p.encrypted < produced {
                Ok((BackupTaskStage::Encrypt, produced_count, p.encrypted))
            } else if p.encrypted > produced {
                Err(CorruptKind::Stage(BackupTaskStage::Encrypt))
            } else if p.uploaded < produced {
                Ok((BackupTaskStage::Upload, produced_count, p.uploaded))
            } else if p.uploaded > produced {
                Err(CorruptKind::Stage(BackupTaskStage::Upload))
            } else if p.cleanup < produced {
                Ok((BackupTaskStage::Cleanup, produced_count, p.cleanup))
            } else if p.cleanup > produced {
                Err(CorruptKind::Stage(BackupTaskStage::Cleanup))
            } else if produced == total {
                if p.verified {
                    Ok((BackupTaskStage::Done, 0u64, 0u64))
                } else {
                    Ok((BackupTaskStage::Verify, produced_count, 0u64))
                }
            } else {
                Ok((BackupTaskStage::Split, total, produced_count))
            }
        }
    }
}

/// Well-formedness of a task's progress record: what holds after every
/// successful commit of a run that started from a fresh task.
pub open spec fn task_wf(task: ActiveBackupTask) -> bool {
    let p = task.progress;
    let produced = produced_of(task);
    &&& p.snapshot_tested ==> p.snapshot_exported_name@.len() > 0
    &&& produced <= task.split_qty
    &&& p.compressed <= produced
    &&& p.encrypted <= produced
    &&& p.uploaded <= produced
    &&& p.cleanup <= produced
    &&& p.compressed >= p.encrypted >= p.uploaded >= p.cleanup
    &&& p.verified ==> produced == task.split_qty && p.compressed == task.split_qty && p.encrypted
        == task.split_qty && p.uploaded == task.split_qty && p.cleanup == task.split_qty
}

/// Owner of the in-memory mirror of the persisted pipeline state and
/// gateway for all commits. Each mutator commits the blob it changed
/// before returning; on a failed commit the in-memory state keeps the
/// mutation and the next `restore_status` re-reads from the store.
pub struct StatusManager<IO: FileIo> {
    io: IO,
    target_queue: BackupTargetQueue,
    active_tasks: ActiveBackupTask,
    latest_snapshot_map: LatestSnapshotMap,
}

impl<IO: FileIo> StatusManager<IO> {
    /// The in-memory mirror of the target queue.
    pub closed spec fn queue(&self) -> Seq<BackupTarget> {
        self.target_queue@
    }

    /// The in-memory mirror of the active task.
    pub closed spec fn task(&self) -> ActiveBackupTask {
        self.active_tasks
    }

    /// The in-memory mirror of the latest-snapshot table.
    pub closed spec fn snapshot_map(&self) -> LatestSnapshotMap {
        self.latest_snapshot_map
    }

    /// The store this manager commits through.
    pub closed spec fn store(&self) -> IO {
        self.io
    }

    /// Loads all three blobs from the store and mirrors them in memory.
    pub fn new(io: IO) -> (r: Result<Self, PipelineError>)
        ensures
            r matches Err(e) ==> e is Persistence,
    {
        let target_queue = match io.load_target_queue() {
            Ok(q) => q,
            Err(e) => { return Err(e) },
        };
        let active_tasks = match io.load_active_tasks() {
            Ok(t) => t,
            Err(e) => { return Err(e) },
        };
        let latest_snapshot_map = match io.load_latest_snapshot_map() {
            Ok(m) => m,
            Err(e) => { return Err(e) },
        };
        Ok(StatusManager { io, target_queue, active_tasks, latest_snapshot_map })
    }

    /// Read-only view of the pending targets.
    pub fn get_target_queue(&self) -> (r: &BackupTargetQueue)
        ensures
            r@ == self.queue(),
    {
        &self.target_queue
    }

    /// Read-only view of the active task.
    pub fn get_active_task(&self) -> (r: &ActiveBackupTask)
        ensures
            *r == self.task(),
    {
        &self.active_tasks
    }

    /// Read-only view of the latest-snapshot table.
    pub fn get_latest_snapshot_map(&self) -> (r: &LatestSnapshotMap)
        ensures
            *r == self.snapshot_map(),
    {
        &self.latest_snapshot_map
    }

    /// Pushes a target to the tail of the queue and commits the queue blob.
    pub fn enqueue_target(&mut self, target: BackupTarget) -> (r: Result<(), PipelineError>)
        ensures
            final(self).queue() == old(self).queue().push(target),
            final(self).task() == old(self).task(),
            final(self).snapshot_map() == old(self).snapshot_map(),
            final(self).store() == old(self).store(),
            r matches Err(e) ==> e is Persistence,
    {
        self.target_queue.push_back(target);
        self.io.save_target_queue(&self.target_queue)
    }

    /// Pops the head of the queue and commits the queue blob; fails with
    /// `EmptyQueue` (and changes nothing) when the queue is empty.
    pub fn dequeue_target(&mut self) -> (r: Result<BackupTarget, PipelineError>)
        ensures
            final(self).task() == old(self).task(),
            final(self).snapshot_map() == old(self).snapshot_map(),
            final(self).store() == old(self).store(),
            old(self).queue().len() == 0 ==> {
                &&& r matches Err(e) && e is EmptyQueue
                &&& final(self).queue() == old(self).queue()
            },
            old(self).queue().len() > 0 ==> {
                &&& final(self).queue() == old(self).queue().drop_first()
                &&& r matches Ok(t) ==> t == old(self).queue()[0]
                &&& r matches Err(e) ==> e is Persistence
            },
    {
        if let Some(target) = self.target_queue.pop_front() {
            match self.io.save_target_queue(&self.target_queue) {
                Ok(()) => Ok(target),
                Err(e) => Err(e),
            }
        } else {
            Err(PipelineError::EmptyQueue)
        }
    }

    /// Re-reads the queue (and, when needed, the active task) from the
    /// store and derives the next `(stage, total, current)` from them.
    pub fn restore_status(&mut self) -> (r: Result<(BackupTaskStage, u64, u64), PipelineError>)
        ensures
            final(self).snapshot_map() == old(self).snapshot_map(),
            final(self).store() == old(self).store(),
            match r {
                Ok(t) => restore_status_spec(final(self).queue(), final(self).task()) == Ok::<
                    _,
                    CorruptKind,
                >(t),
                Err(e) => match e {
                    PipelineError::CorruptState(k) => restore_status_spec(
                        final(self).queue(),
                        final(self).task(),
                    ) == Err::<(BackupTaskStage, u64, u64), _>(k),
                    PipelineError::Persistence(_) => final(self).task() == old(self).task(),
                    _ => false,
                },
            },
    {
        self.target_queue = match self.io.load_target_queue() {
            Ok(q) => q,
            Err(e) => { return Err(e) },
        };
        if self.target_queue.len() == 0 {
            return Ok((BackupTaskStage::Done, 0, 0));
        }
        self.active_tasks = match self.io.load_active_tasks() {
            Ok(t) => t,
            Err(e) => { return Err(e) },
        };
        let stage = &self.active_tasks.progress;

        if stage.snapshot_exported_name.as_str().is_empty() {
            return Ok((BackupTaskStage::SnapshotExport, 0, 0));
        }
        if !stage.snapshot_tested {
            return Ok((BackupTaskStage::SnapshotTest, 0, 0));
        }
        let split_count = stage.split_hashes.len() as u64;
        let total_split_qty = self.active_tasks.split_qty;

        if split_count > total_split_qty {
            return Err(PipelineError::CorruptState(CorruptKind::SplitCount));
        } else if split_count == 0 {
            return Ok((BackupTaskStage::Split, total_split_qty, 0));
        }
        if stage.compressed < split_count {
            return Ok((BackupTaskStage::Compress, split_count, stage.compressed));
        } else if stage.compressed > split_count {
            return Err(
                PipelineError::CorruptState(CorruptKind::Stage(BackupTaskStage::Compress)),
            );
        }
        if stage.encrypted < split_count {
            return Ok((BackupTaskStage::Encrypt, split_count, stage.encrypted));
        } else if stage.encrypted > split_count {
            return Err(PipelineError::CorruptState(CorruptKind::Stage(BackupTaskStage::Encrypt)));
        }
        if stage.uploaded < split_count {
            return Ok((BackupTaskStage::Upload, split_count, stage.uploaded));
        } else if stage.uploaded > split_count {
            return Err(PipelineError::CorruptState(CorruptKind::Stage(BackupTaskStage::Upload)));
        }
        if stage.cleanup < split_count {
            return Ok((BackupTaskStage::Cleanup, split_count, stage.cleanup));
        } else if stage.cleanup > split_count {
            return Err(PipelineError::CorruptState(CorruptKind::Stage(BackupTaskStage::Cleanup)));
        }
        if split_count == total_split_qty {
            if stage.verified {
                return Ok((BackupTaskStage::Done, 0, 0));
            } else {
                return Ok((BackupTaskStage::Verify, split_count, 0));
            }
        }
        Ok((BackupTaskStage::Split, total_split_qty, split_count))
    }

    /// Sets the full-file digest and commits the active-task blob.
    pub fn update_full_hash(&mut self, hash: crate::model::Hash) -> (r: Result<(), PipelineError>)
        ensures
            final(self).task() == (ActiveBackupTask { full_hash: hash, ..old(self).task() }),
            final(self).queue() == old(self).queue(),
            final(self).snapshot_map() == old(self).snapshot_map(),
            final(self).store() == old(self).store(),
            r matches Err(e) ==> e is Persistence,
    {
        self.active_tasks.full_hash = hash;
        self.io.save_active_tasks(&self.active_tasks)
    }

    /// Sets the exported snapshot name and commits the active-task blob.
    pub fn update_stage_status_snapshot_exported(&mut self, filename: String) -> (r: Result<
        (),
        PipelineError,
    >)
        ensures
            final(self).task() == (ActiveBackupTask {
                progress: crate::model::BackupStageStatus {
                    snapshot_exported_name: filename,
                    ..old(self).task().progress
                },
                ..old(self).task()
            }),
            final(self).queue() == old(self).queue(),
            final(self).snapshot_map() == old(self).snapshot_map(),
            final(self).store() == old(self).store(),
            r matches Err(e) ==> e is Persistence,
    {
        self.active_tasks.progress.snapshot_exported_name = filename;
        self.io.save_active_tasks(&self.active_tasks)
    }

    /// Sets the snapshot-tested flag and commits the active-task blob.
    pub fn update_stage_status_snapshot_tested(&mut self, status: bool) -> (r: Result<
        (),
        PipelineError,
    >)
        ensures
            final(self).task() == (ActiveBackupTask {
                progress: crate::model::BackupStageStatus {
                    snapshot_tested: status,
                    ..old(self).task().progress
                },
                ..old(self).task()
            }),
            final(self).queue() == old(self).queue(),
            final(self).snapshot_map() == old(self).snapshot_map(),
            final(self).store() == old(self).store(),
            r matches Err(e) ==> e is Persistence,
    {
        self.active_tasks.progress.snapshot_tested = status;
        self.io.save_active_tasks(&self.active_tasks)
    }

    /// Appends one split digest and commits the active-task blob.
    pub fn update_stage_status_split_hashes(&mut self, hash: crate::model::Hash) -> (r: Result<
        (),
        PipelineError,
    >)
        ensures
            final(self).task() == (ActiveBackupTask {
                progress: crate::model::BackupStageStatus {
                    split_hashes: final(self).task().progress.split_hashes,
                    ..old(self).task().progress
                },
                ..old(self).task()
            }),
            final(self).task().progress.split_hashes@ == old(
                self,
            ).task().progress.split_hashes@.push(hash),
            final(self).queue() == old(self).queue(),
            final(self).snapshot_map() == old(self).snapshot_map(),
            final(self).store() == old(self).store(),
            r matches Err(e) ==> e is Persistence,
    {
        self.active_tasks.progress.split_hashes.push(hash);
        self.io.save_active_tasks(&self.active_tasks)
    }

    /// Sets the compressed-split counter and commits the active-task blob.
    pub fn update_stage_status_compressed(&mut self, count: u64) -> (r: Result<(), PipelineError>)
        ensures
            final(self).task() == (ActiveBackupTask {
                progress: crate::model::BackupStageStatus {
                    compressed: count,
                    ..old(self).task().progress
                },
                ..old(self).task()
            }),
            final(self).queue() == old(self).queue(),
            final(self).snapshot_map() == old(self).snapshot_map(),
            final(self).store() == old(self).store(),
            r matches Err(e) ==> e is Persistence,
    {
        self.active_tasks.progress.compressed = count;
        self.io.save_active_tasks(&self.active_tasks)
    }

    /// Sets the encrypted-split counter and commits the active-task blob.
    pub fn update_stage_status_encrypted(&mut self, count: u64) -> (r: Result<(), PipelineError>)
        ensures
            final(self).task() == (ActiveBackupTask {
                progress: crate::model::BackupStageStatus {
                    encrypted: count,
                    ..old(self).task().progress
                },
                ..old(self).task()
            }),
            final(self).queue() == old(self).queue(),
            final(self).snapshot_map() == old(self).snapshot_map(),
            final(self).store() == old(self).store(),
            r matches Err(e) ==> e is Persistence,
    {
        self.active_tasks.progress.encrypted = count;
        self.io.save_active_tasks(&self.active_tasks)
    }

    /// Sets the uploaded-split counter and commits the active-task blob.
    pub fn update_stage_status_uploaded(&mut self, count: u64) -> (r: Result<(), PipelineError>)
        ensures
            final(self).task() == (ActiveBackupTask {
                progress: crate::model::BackupStageStatus {
                    uploaded: count,
                    ..old(self).task().progress
                },
                ..old(self).task()
            }),
            final(self).queue() == old(self).queue(),
            final(self).snapshot_map() == old(self).snapshot_map(),
            final(self).store() == old(self).store(),
            r matches Err(e) ==> e is Persistence,
    {
        self.active_tasks.progress.uploaded = count;
        self.io.save_active_tasks(&self.active_tasks)
    }

    /// Sets the cleaned-up-split counter and commits the active-task blob.
    pub fn update_stage_status_cleanup(&mut self, count: u64) -> (r: Result<(), PipelineError>)
        ensures
            final(self).task() == (ActiveBackupTask {
                progress: crate::model::BackupStageStatus {
                    cleanup: count,
                    ..old(self).task().progress
                },
                ..old(self).task()
            }),
            final(self).queue() == old(self).queue(),
            final(self).snapshot_map() == old(self).snapshot_map(),
            final(self).store() == old(self).store(),
            r matches Err(e) ==> e is Persistence,
    {
        self.active_tasks.progress.cleanup = count;
        self.io.save_active_tasks(&self.active_tasks)
    }

    /// Sets the verified flag and commits the active-task blob.
    pub fn update_stage_status_verified(&mut self, status: bool) -> (r: Result<(), PipelineError>)
        ensures
            final(self).task() == (ActiveBackupTask {
                progress: crate::model::BackupStageStatus {
                    verified: status,
                    ..old(self).task().progress
                },
                ..old(self).task()
            }),
            final(self).queue() == old(self).queue(),
            final(self).snapshot_map() == old(self).snapshot_map(),
            final(self).store() == old(self).store(),
            r matches Err(e) ==> e is Persistence,
    {
        self.active_tasks.progress.verified = status;
        self.io.save_active_tasks(&self.active_tasks)
    }
}

} // verus!
