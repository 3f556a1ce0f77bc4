use std::cell::RefCell;
use std::collections::VecDeque;
use std::rc::Rc;

use zrb::ActiveBackupTask;
use zrb::BackupTarget;
use zrb::BackupType;
use zrb::Date;
use zrb::FileIo;
use zrb::LatestSnapshotMap;
use zrb::PipelineError;
use zrb::StatusManager;

/// In-memory store that also records every saved queue, so a test can
/// check what was committed and how often.
#[derive(Clone)]
struct RecordingIo {
    queue: Rc<RefCell<VecDeque<BackupTarget>>>,
    task: Rc<RefCell<ActiveBackupTask>>,
    map: Rc<RefCell<LatestSnapshotMap>>,
    saved_queues: Rc<RefCell<Vec<VecDeque<BackupTarget>>>>,
}

impl RecordingIo {
    fn new(queue: VecDeque<BackupTarget>) -> Self {
        RecordingIo {
            queue: Rc::new(RefCell::new(queue)),
            task: Rc::new(RefCell::new(ActiveBackupTask::default())),
            map: Rc::new(RefCell::new(LatestSnapshotMap::default())),
            saved_queues: Rc::new(RefCell::new(Vec::new())),
        }
    }
}

impl FileIo for RecordingIo {
    fn load_target_queue(&self) -> Result<VecDeque<BackupTarget>, PipelineError> {
        Ok(self.queue.borrow().clone())
    }

    fn load_active_tasks(&self) -> Result<ActiveBackupTask, PipelineError> {
        Ok(self.task.borrow().clone())
    }

    fn load_latest_snapshot_map(&self) -> Result<LatestSnapshotMap, PipelineError> {
        Ok(self.map.borrow().clone())
    }

    fn save_target_queue(&self, queue: &VecDeque<BackupTarget>) -> Result<(), PipelineError> {
        *self.queue.borrow_mut() = queue.clone();
        self.saved_queues.borrow_mut().push(queue.clone());
        Ok(())
    }

    fn save_active_tasks(&self, task: &ActiveBackupTask) -> Result<(), PipelineError> {
        *self.task.borrow_mut() = task.clone();
        Ok(())
    }

    fn save_latest_snapshot_map(&self, map: &LatestSnapshotMap) -> Result<(), PipelineError> {
        *self.map.borrow_mut() = map.clone();
        Ok(())
    }
}

fn sample_target(dataset: &str) -> BackupTarget {
    BackupTarget {
        date: Date::new(2024, 6, 1).unwrap(),
        backup_type: BackupType::Full,
        dataset: dataset.to_string(),
    }
}

#[test]
fn manager_test_enqueue_and_dequeue() {
    let io = RecordingIo::new(VecDeque::new());
    let saves = io.saved_queues.clone();
    let mut manager = StatusManager::new(io).unwrap();

    let target1 = sample_target("pool1/data1");
    manager.enqueue_target(target1.clone()).unwrap();

    let target2 = sample_target("pool1/data2");
    manager.enqueue_target(target2.clone()).unwrap();

    let out1 = manager.dequeue_target().unwrap();
    assert_eq!(out1.dataset, target1.dataset);

    let out2 = manager.dequeue_target().unwrap();
    assert_eq!(out2.dataset, target2.dataset);

    assert!(manager.dequeue_target().is_err());
    // four commits: two enqueues, two successful dequeues
    assert_eq!(saves.borrow().len(), 4);
}

#[test]
fn manager_test_enqueue_target() {
    let io = RecordingIo::new(VecDeque::new());
    let saves = io.saved_queues.clone();
    let mut manager = StatusManager::new(io).unwrap();
    let target = sample_target("pool1/data1");

    manager.enqueue_target(target).unwrap();

    let saved = saves.borrow();
    assert_eq!(saved.len(), 1);
    assert!(saved[0].len() == 1 && saved[0][0].dataset == "pool1/data1");
}

#[test]
fn manager_test_dequeue_target() {
    let target = sample_target("pool1/data2");
    let mut queue = VecDeque::new();
    queue.push_back(target.clone());

    let io = RecordingIo::new(queue);
    let saves = io.saved_queues.clone();
    let mut manager = StatusManager::new(io).unwrap();

    let result = manager.dequeue_target().unwrap();
    assert_eq!(result.dataset, target.dataset);

    let saved = saves.borrow();
    assert_eq!(saved.len(), 1);
    assert!(saved[0].is_empty());
}

#[test]
fn manager_tests_test_enqueue_and_dequeue() {
    let io = RecordingIo::new(VecDeque::new());
    let saves = io.saved_queues.clone();
    let mut manager = StatusManager::new(io).unwrap();

    let target1 = sample_target("dataset1");
    manager.enqueue_target(target1.clone()).unwrap();

    let target2 = sample_target("dataset2");
    manager.enqueue_target(target2.clone()).unwrap();

    let out1 = manager.dequeue_target().unwrap();
    assert_eq!(out1.dataset, target1.dataset);

    let out2 = manager.dequeue_target().unwrap();
    assert_eq!(out2.dataset, target2.dataset);

    assert!(manager.dequeue_target().is_err());
    assert_eq!(saves.borrow().len(), 4);
}

#[test]
fn manager_tests_test_enqueue_target() {
    let io = RecordingIo::new(VecDeque::new());
    let saves = io.saved_queues.clone();
    let mut manager = StatusManager::new(io).unwrap();
    let target = sample_target("dataset1");

    manager.enqueue_target(target).unwrap();

    let saved = saves.borrow();
    assert_eq!(saved.len(), 1);
    assert!(saved[0].len() == 1 && saved[0][0].dataset == "dataset1");
}

#[test]
fn manager_tests_test_dequeue_target() {
    let target = sample_target("dataset2");
    let mut queue = VecDeque::new();
    queue.push_back(target.clone());

    let io = RecordingIo::new(queue);
    let saves = io.saved_queues.clone();
    let mut manager = StatusManager::new(io).unwrap();

    let result = manager.dequeue_target().unwrap();
    assert_eq!(result.dataset, target.dataset);

    let saved = saves.borrow();
    assert_eq!(saved.len(), 1);
    assert!(saved[0].is_empty());
}

/// Store whose saves always fail, standing in for a full or absent disk.
struct SaveFailsIo;

impl FileIo for SaveFailsIo {
    fn load_target_queue(&self) -> Result<VecDeque<BackupTarget>, PipelineError> {
        Ok(VecDeque::new())
    }

    fn load_active_tasks(&self) -> Result<ActiveBackupTask, PipelineError> {
        Ok(ActiveBackupTask::default())
    }

    fn load_latest_snapshot_map(&self) -> Result<LatestSnapshotMap, PipelineError> {
        Ok(LatestSnapshotMap::default())
    }

    fn save_target_queue(&self, _queue: &VecDeque<BackupTarget>) -> Result<(), PipelineError> {
        Err(PipelineError::Persistence("save failed".to_string()))
    }

    fn save_active_tasks(&self, _task: &ActiveBackupTask) -> Result<(), PipelineError> {
        Err(PipelineError::Persistence("save failed".to_string()))
    }

    fn save_latest_snapshot_map(&self, _map: &LatestSnapshotMap) -> Result<(), PipelineError> {
        Err(PipelineError::Persistence("save failed".to_string()))
    }
}

#[test]
fn test_enqueue_commit_failure_surfaces_persistence_error() {
    let mut manager = StatusManager::new(SaveFailsIo).unwrap();
    let err = manager.enqueue_target(sample_target("pool1/data1")).unwrap_err();
    assert!(matches!(err, PipelineError::Persistence(_)));
    assert_eq!(err.message(), "save failed");
    // the in-memory mirror keeps the mutation; the next restore_status
    // re-reads from the store and reconciles
    assert_eq!(manager.get_target_queue().len(), 1);
    let result = manager.restore_status().unwrap();
    assert_eq!(result, (zrb::BackupTaskStage::Done, 0, 0));
}

#[test]
fn test_dequeue_empty_queue_error_message() {
    let io = RecordingIo::new(VecDeque::new());
    let mut manager = StatusManager::new(io).unwrap();

    let err = manager.dequeue_target().unwrap_err();
    assert!(matches!(err, PipelineError::EmptyQueue));
    assert_eq!(err.message(), "Empty queue");
}
