use upload_engine::queue::{Signal, TaskQueue, UploadTask};
use upload_engine::record::new_upload_record;

const MIB: u64 = 1024 * 1024;

fn mk(s: &str) -> String {
    s.to_string()
}

fn background(fid: &str) -> UploadTask {
    UploadTask::Background {
        workspace_id: mk("ws"),
        parent_dir: mk("dir"),
        file_id: mk(fid),
        created_at: 1_700_000_000,
        retry_count: 0,
    }
}

fn immediate(fid: &str) -> UploadTask {
    let record = new_upload_record(
        mk("ws"),
        mk("dir"),
        mk(fid),
        mk("/cache/a.bin"),
        6 * MIB,
        1_700_000_000,
    );
    UploadTask::Immediate { record, retry_count: 3 }
}

fn file_id_of(t: &UploadTask) -> String {
    match t {
        UploadTask::Immediate { record, .. } => record.file_id.clone(),
        UploadTask::Background { file_id, .. } => file_id.clone(),
        UploadTask::Recovered { file_id, .. } => file_id.clone(),
    }
}

#[test]
fn immediate_tasks_jump_the_backlog() {
    let mut q = TaskQueue::new();
    q.queue_task(background("b1"));
    q.queue_task(immediate("i1"));
    q.queue_task(background("b2"));
    q.queue_task(immediate("i2"));
    let order: Vec<String> = std::iter::from_fn(|| q.dequeue().as_ref().map(file_id_of)).collect();
    assert_eq!(order, vec!["i1", "i2", "b1", "b2"]);
}

#[test]
fn within_a_class_the_order_is_fifo() {
    let mut q = TaskQueue::new();
    q.queue_task(background("b1"));
    q.queue_task(background("b2"));
    q.queue_task(background("b3"));
    assert_eq!(file_id_of(&q.dequeue().unwrap()), "b1");
    assert_eq!(file_id_of(&q.dequeue().unwrap()), "b2");
    assert_eq!(file_id_of(&q.dequeue().unwrap()), "b3");
    assert!(q.dequeue().is_none());
}

#[test]
fn enqueue_wakes_the_signal() {
    let mut q = TaskQueue::new();
    q.set_signal(Signal::Stop);
    assert_eq!(q.signal(), Signal::Stop);
    q.queue_task(background("b1"));
    assert_eq!(q.signal(), Signal::Proceed);
}

#[test]
fn batch_enqueue_keeps_order() {
    let mut q = TaskQueue::new();
    q.queue_tasks(vec![background("b1"), immediate("i1"), background("b2")]);
    assert_eq!(q.pending_count(), 3);
    assert_eq!(file_id_of(&q.dequeue().unwrap()), "i1");
    assert_eq!(file_id_of(&q.dequeue().unwrap()), "b1");
    assert_eq!(file_id_of(&q.dequeue().unwrap()), "b2");
}
