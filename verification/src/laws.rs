//! Laws of the persisted state machine: what `restore_status` guarantees of
//! states it accepts, that the per-stage commits preserve the progress
//! record's well-formedness, that a committed step is never re-executed,
//! and that resumption depends only on the fields a commit writes.

use vstd::prelude::*;

use crate::backup::step_commit;
use crate::errors::CorruptKind;
use crate::model::ActiveBackupTask;
use crate::model::BackupTarget;
use crate::model::BackupTaskStage;
use crate::status::produced_of;
use crate::status::restore_status_spec;
use crate::status::task_wf;

verus! {

/// For every persisted state past export and test that `restore_status`
/// accepts, the number of produced splits is at most the expected split
/// quantity.
pub proof fn lemma_restore_ok_produced_le_qty(queue: Seq<BackupTarget>, task: ActiveBackupTask)
    requires
        queue.len() > 0,
        task.progress.snapshot_exported_name@.len() > 0,
        task.progress.snapshot_tested,
        restore_status_spec(queue, task) is Ok,
    ensures
        produced_of(task) <= task.split_qty,
{
}

/// For every well-formed persisted state that `restore_status` accepts, the
/// stage counters respect the stage order: compressed >= encrypted >=
/// uploaded >= cleanup.
///
/// The well-formedness hypothesis carries this property, and resumption
/// alone cannot: `restore_status` stops examining counters at the first
/// one that lags, so a state with compressed = 1 and encrypted = 2 over
/// three produced splits still resolves to the compress stage. What makes
/// the hypothesis real is induction: a fresh task is well formed
/// (`lemma_fresh_task_wf`) and every committed stage-step preserves well-
/// formedness (`lemma_step_preserves_wf`), so every state the pipeline
/// itself persists satisfies it.
pub proof fn lemma_restore_ok_counters_ordered(queue: Seq<BackupTarget>, task: ActiveBackupTask)
    requires
        task_wf(task),
        restore_status_spec(queue, task) is Ok,
    ensures
        task.progress.compressed >= task.progress.encrypted,
        task.progress.encrypted >= task.progress.uploaded,
        task.progress.uploaded >= task.progress.cleanup,
{
}

/// For every well-formed persisted state that `restore_status` accepts, no
/// stage counter exceeds the number of produced splits.
///
/// As with the counter ordering, resumption alone cannot carry this: a
/// counter behind the first lagging one goes unexamined, so a state with
/// encrypted = 7 over three produced splits still resolves to a stage.
/// The hypothesis is discharged inductively by `lemma_fresh_task_wf` and
/// `lemma_step_preserves_wf`.
pub proof fn lemma_restore_ok_counters_le_produced(
    queue: Seq<BackupTarget>,
    task: ActiveBackupTask,
)
    requires
        task_wf(task),
        restore_status_spec(queue, task) is Ok,
    ensures
        task.progress.compressed <= produced_of(task),
        task.progress.encrypted <= produced_of(task),
        task.progress.uploaded <= produced_of(task),
        task.progress.cleanup <= produced_of(task),
{
}

/// For every well-formed persisted state that `restore_status` accepts, a
/// set verified flag means every counter equals the split quantity, which
/// equals the number of produced splits.
///
/// Resumption alone cannot carry this either: a verified flag on a task
/// with three of five splits produced still resolves to the split stage.
/// The hypothesis is discharged inductively by `lemma_fresh_task_wf` and
/// `lemma_step_preserves_wf`.
pub proof fn lemma_restore_ok_verified_complete(queue: Seq<BackupTarget>, task: ActiveBackupTask)
    requires
        task_wf(task),
        restore_status_spec(queue, task) is Ok,
        task.progress.verified,
    ensures
        produced_of(task) == task.split_qty,
        task.progress.compressed == task.split_qty,
        task.progress.encrypted == task.split_qty,
        task.progress.uploaded == task.split_qty,
        task.progress.cleanup == task.split_qty,
{
}

/// A fresh task — nothing exported, tested, produced, counted or verified —
/// is well formed, whatever its snapshot names and split quantity.
pub proof fn lemma_fresh_task_wf(task: ActiveBackupTask)
    requires
        task.progress.snapshot_tested == false,
        task.progress.split_hashes@.len() == 0,
        task.progress.compressed == 0,
        task.progress.encrypted == 0,
        task.progress.uploaded == 0,
        task.progress.cleanup == 0,
        task.progress.verified == false,
    ensures
        task_wf(task),
{
}

/// `restore_status` never reports corruption of a well-formed state.
pub proof fn lemma_wf_restore_ok(queue: Seq<BackupTarget>, task: ActiveBackupTask)
    requires
        task_wf(task),
    ensures
        restore_status_spec(queue, task) is Ok,
{
}

/// Every committed stage-step preserves well-formedness: starting from a
/// well-formed state, executing the stage that `restore_status` derived
/// from that state and committing its progress yields a well-formed state
/// again. The one caveat is the split stage, which appends a split only
/// soundly while fewer splits exist than the task expects; with
/// `split_qty = 0` the splitter is expected to fail instead, so no commit
/// happens.
pub proof fn lemma_step_preserves_wf(
    queue: Seq<BackupTarget>,
    before: ActiveBackupTask,
    after: ActiveBackupTask,
    stage: BackupTaskStage,
    total: u64,
    current: u64,
)
    requires
        task_wf(before),
        restore_status_spec(queue, before) == Ok::<(BackupTaskStage, u64, u64), CorruptKind>(
            (stage, total, current),
        ),
        step_commit(stage, current, before, after),
        stage is Split ==> produced_of(before) < before.split_qty,
    ensures
        task_wf(after),
{
}

/// Idempotent resumption: once a stage-step at split index `current` has
/// been committed, a following `restore_status` never asks for that same
/// stage at that same index again — it asks for the next split of the same
/// stage, or for the next stage, exactly as stated per stage below.
pub proof fn lemma_step_advances(
    queue: Seq<BackupTarget>,
    before: ActiveBackupTask,
    after: ActiveBackupTask,
    stage: BackupTaskStage,
    total: u64,
    current: u64,
)
    requires
        task_wf(before),
        restore_status_spec(queue, before) == Ok::<(BackupTaskStage, u64, u64), CorruptKind>(
            (stage, total, current),
        ),
        stage != BackupTaskStage::Done,
        step_commit(stage, current, before, after),
        stage is Split ==> produced_of(before) < before.split_qty,
    ensures
        restore_status_spec(queue, after) matches Ok(t) ==> !(t.0 == stage && t.2 == current),
        stage is SnapshotExport ==> restore_status_spec(queue, after) == Ok::<_, CorruptKind>((
            BackupTaskStage::SnapshotTest,
            0u64,
            0u64,
        )),
        stage is SnapshotTest ==> (restore_status_spec(queue, after) matches Ok(t) && !(t.0
            is SnapshotExport) && !(t.0 is SnapshotTest)),
        stage is Split ==> restore_status_spec(queue, after) == Ok::<_, CorruptKind>((
            BackupTaskStage::Compress,
            (current + 1) as u64,
            current,
        )),
        stage is Compress ==> restore_status_spec(queue, after) == (if current + 1 < total {
            Ok::<_, CorruptKind>((BackupTaskStage::Compress, total, (current + 1) as u64))
        } else {
            Ok((BackupTaskStage::Encrypt, total, before.progress.encrypted))
        }),
        stage is Encrypt ==> restore_status_spec(queue, after) == (if current + 1 < total {
            Ok::<_, CorruptKind>((BackupTaskStage::Encrypt, total, (current + 1) as u64))
        } else {
            Ok((BackupTaskStage::Upload, total, before.progress.uploaded))
        }),
        stage is Upload ==> restore_status_spec(queue, after) == (if current + 1 < total {
            Ok::<_, CorruptKind>((BackupTaskStage::Upload, total, (current + 1) as u64))
        } else {
            Ok((BackupTaskStage::Cleanup, total, before.progress.cleanup))
        }),
        stage is Cleanup ==> restore_status_spec(queue, after) == (if current + 1 < total {
            Ok::<_, CorruptKind>((BackupTaskStage::Cleanup, total, (current + 1) as u64))
        } else if total == before.split_qty {
            Ok((BackupTaskStage::Verify, total, 0u64))
        } else {
            Ok((BackupTaskStage::Split, before.split_qty, total))
        }),
        stage is Verify ==> restore_status_spec(queue, after) == Ok::<_, CorruptKind>((
            BackupTaskStage::Done,
            0u64,
            0u64,
        )),
{
}

/// With `split_qty = 0` the pipeline cannot leave the split stage: a
/// tested task with no produced splits resolves to the split stage again,
/// and any produced split is immediately a corruption.
pub proof fn lemma_zero_split_qty_stays_at_split(queue: Seq<BackupTarget>, task: ActiveBackupTask)
    requires
        queue.len() > 0,
        task.progress.snapshot_exported_name@.len() > 0,
        task.progress.snapshot_tested,
        task.split_qty == 0,
    ensures
        produced_of(task) == 0 ==> restore_status_spec(queue, task) == Ok::<_, CorruptKind>((
            BackupTaskStage::Split,
            0u64,
            0u64,
        )),
        produced_of(task) > 0 ==> restore_status_spec(queue, task) == Err::<
            (BackupTaskStage, u64, u64),
            _,
        >(CorruptKind::SplitCount),
{
}

/// Crash safety: the resumption decision reads only the queue's emptiness
/// and the progress fields that stage commits write — whether a name was
/// exported, the tested and verified flags, how many splits were produced,
/// the four counters, and the split quantity. A failed attempt that
/// committed none of these (it may have re-recorded the full-file digest,
/// or re-written split files on disk) leaves the decision unchanged.
pub proof fn lemma_restore_depends_only_on_progress(
    queue1: Seq<BackupTarget>,
    queue2: Seq<BackupTarget>,
    task1: ActiveBackupTask,
    task2: ActiveBackupTask,
)
    requires
        (queue1.len() == 0) == (queue2.len() == 0),
        task1.split_qty == task2.split_qty,
        (task1.progress.snapshot_exported_name@.len() == 0) == (
        task2.progress.snapshot_exported_name@.len() == 0),
        task1.progress.snapshot_tested == task2.progress.snapshot_tested,
        task1.progress.split_hashes@.len() == task2.progress.split_hashes@.len(),
        task1.progress.compressed == task2.progress.compressed,
        task1.progress.encrypted == task2.progress.encrypted,
        task1.progress.uploaded == task2.progress.uploaded,
        task1.progress.cleanup == task2.progress.cleanup,
        task1.progress.verified == task2.progress.verified,
    ensures
        restore_status_spec(queue1, task1) == restore_status_spec(queue2, task2),
{
}

} // verus!
