//! The in-memory task queue: pending uploads in two classes, with the
//! wake signal the scheduler watches.
//!
//! `Immediate` tasks are dequeued before any `Background` or `Recovered`
//! task regardless of arrival order; within a class the order is FIFO.

use vstd::prelude::*;
use crate::record::RecordModel;
use crate::record::UploadRecord;

verus! {

/// The wake signal: writers flip it to `Proceed` on each enqueue; the
/// scheduler flips it to `Stop` while paused.
#[derive(Clone, Copy, Debug, PartialEq, Eq, Structural)]
pub enum Signal {
    Proceed,
    Stop,
}

/// A pending upload. `Immediate` carries the freshly inserted record and
/// a retry budget; `Background` and `Recovered` carry only the record's
/// identity and are resolved against the store when dequeued.
pub enum UploadTask {
    Immediate { record: UploadRecord, retry_count: u64 },
    Background {
        workspace_id: String,
        parent_dir: String,
        file_id: String,
        created_at: i64,
        retry_count: u64,
    },
    Recovered {
        workspace_id: String,
        parent_dir: String,
        file_id: String,
        created_at: i64,
        retry_count: u64,
    },
}

/// The mathematical model of a task.
#[verifier::ext_equal]
pub enum TaskModel {
    Immediate { record: RecordModel, retry_count: u64 },
    Background {
        workspace_id: Seq<char>,
        parent_dir: Seq<char>,
        file_id: Seq<char>,
        created_at: i64,
        retry_count: u64,
    },
    Recovered {
        workspace_id: Seq<char>,
        parent_dir: Seq<char>,
        file_id: Seq<char>,
        created_at: i64,
        retry_count: u64,
    },
}

impl TaskModel {
    /// The identity of the record the task is about.
    pub open spec fn key(self) -> (Seq<char>, Seq<char>, Seq<char>) {
        match self {
            TaskModel::Immediate { record, .. } => record.key(),
            TaskModel::Background { workspace_id, parent_dir, file_id, .. } => (
                workspace_id,
                parent_dir,
                file_id,
            ),
            TaskModel::Recovered { workspace_id, parent_dir, file_id, .. } => (
                workspace_id,
                parent_dir,
                file_id,
            ),
        }
    }

    /// How many retries the task still has.
    pub open spec fn retry_count(self) -> u64 {
        match self {
            TaskModel::Immediate { retry_count, .. } => retry_count,
            TaskModel::Background { retry_count, .. } => retry_count,
            TaskModel::Recovered { retry_count, .. } => retry_count,
        }
    }

    /// The same task with its retry budget replaced.
    pub open spec fn with_retry(self, remaining: u64) -> TaskModel {
        match self {
            TaskModel::Immediate { record, .. } => TaskModel::Immediate {
                record,
                retry_count: remaining,
            },
            TaskModel::Background { workspace_id, parent_dir, file_id, created_at, .. } =>
                TaskModel::Background {
                workspace_id,
                parent_dir,
                file_id,
                created_at,
                retry_count: remaining,
            },
            TaskModel::Recovered { workspace_id, parent_dir, file_id, created_at, .. } =>
                TaskModel::Recovered {
                workspace_id,
                parent_dir,
                file_id,
                created_at,
                retry_count: remaining,
            },
        }
    }
}

impl View for UploadTask {
    type V = TaskModel;

    open spec fn view(&self) -> TaskModel {
        match self {
            UploadTask::Immediate { record, retry_count } => TaskModel::Immediate {
                record: record@,
                retry_count: *retry_count,
            },
            UploadTask::Background { workspace_id, parent_dir, file_id, created_at, retry_count } =>
                TaskModel::Background {
                workspace_id: workspace_id@,
                parent_dir: parent_dir@,
                file_id: file_id@,
                created_at: *created_at,
                retry_count: *retry_count,
            },
            UploadTask::Recovered { workspace_id, parent_dir, file_id, created_at, retry_count } =>
                TaskModel::Recovered {
                workspace_id: workspace_id@,
                parent_dir: parent_dir@,
                file_id: file_id@,
                created_at: *created_at,
                retry_count: *retry_count,
            },
        }
    }
}

impl DeepView for UploadTask {
    type V = TaskModel;

    open spec fn deep_view(&self) -> TaskModel {
        self@
    }
}

impl UploadTask {
    /// How many retries the task still has.
    pub fn retry_count(&self) -> (n: u64)
        ensures
            n == self@.retry_count(),
    {
        match self {
            UploadTask::Immediate { retry_count, .. } => *retry_count,
            UploadTask::Background { retry_count, .. } => *retry_count,
            UploadTask::Recovered { retry_count, .. } => *retry_count,
        }
    }

    /// The same task with its retry budget replaced: how a transient
    /// failure re-enqueues the task with one fewer retry.
    pub fn with_retry(self, remaining: u64) -> (t: UploadTask)
        ensures
            t@ == self@.with_retry(remaining),
    {
        match self {
            UploadTask::Immediate { record, .. } => UploadTask::Immediate {
                record,
                retry_count: remaining,
            },
            UploadTask::Background { workspace_id, parent_dir, file_id, created_at, .. } =>
                UploadTask::Background {
                workspace_id,
                parent_dir,
                file_id,
                created_at,
                retry_count: remaining,
            },
            UploadTask::Recovered { workspace_id, parent_dir, file_id, created_at, .. } =>
                UploadTask::Recovered {
                workspace_id,
                parent_dir,
                file_id,
                created_at,
                retry_count: remaining,
            },
        }
    }
}

/// The mathematical model of the queue: both classes in FIFO order, and
/// the signal.
#[verifier::ext_equal]
pub struct QueueModel {
    pub immediate: Seq<TaskModel>,
    pub background: Seq<TaskModel>,
    pub signal: Signal,
}

/// The model once `t` is enqueued: appended to its class, signal woken.
pub open spec fn spec_enqueue(q: QueueModel, t: TaskModel) -> QueueModel {
    match t {
        TaskModel::Immediate { .. } => QueueModel {
            immediate: q.immediate.push(t),
            signal: Signal::Proceed,
            ..q
        },
        _ => QueueModel { background: q.background.push(t), signal: Signal::Proceed, ..q },
    }
}

/// The model once every task of `ts` is enqueued, in order.
pub open spec fn spec_enqueue_all(q: QueueModel, ts: Seq<TaskModel>) -> QueueModel
    decreases ts.len(),
{
    if ts.len() == 0 {
        q
    } else {
        spec_enqueue_all(spec_enqueue(q, ts[0]), ts.drop_first())
    }
}

/// The pending-task queue.
pub struct TaskQueue {
    immediate: Vec<UploadTask>,
    background: Vec<UploadTask>,
    signal: Signal,
}

impl View for TaskQueue {
    type V = QueueModel;

    closed spec fn view(&self) -> QueueModel {
        QueueModel {
            immediate: self.immediate.deep_view(),
            background: self.background.deep_view(),
            signal: self.signal,
        }
    }
}

impl TaskQueue {
    /// Every task sits in the queue of its class.
    pub closed spec fn wf(&self) -> bool {
        &&& forall|i: int|
            0 <= i < self@.immediate.len() ==> (#[trigger] self@.immediate[i]) is Immediate
        &&& forall|i: int|
            0 <= i < self@.background.len() ==> !((#[trigger] self@.background[i]) is Immediate)
    }

    /// An empty queue, ready to proceed.
    pub fn new() -> (q: TaskQueue)
        ensures
            q@.immediate == Seq::<TaskModel>::empty(),
            q@.background == Seq::<TaskModel>::empty(),
            q@.signal == Signal::Proceed,
            q.wf(),
    {
        let q = TaskQueue { immediate: Vec::new(), background: Vec::new(), signal: Signal::Proceed };
        proof {
            assert(q@.immediate =~= Seq::<TaskModel>::empty());
            assert(q@.background =~= Seq::<TaskModel>::empty());
        }
        q
    }

    /// The current wake signal.
    pub fn signal(&self) -> (s: Signal)
        ensures
            s == self@.signal,
    {
        self.signal
    }

    /// Flip the wake signal; the pending tasks are untouched.
    pub fn set_signal(&mut self, s: Signal)
        ensures
            final(self)@ == (QueueModel { signal: s, ..old(self)@ }),
            final(self).wf() == old(self).wf(),
    {
        self.signal = s;
    }

    /// How many tasks are pending, over both classes.
    pub fn pending_count(&self) -> (n: usize)
        requires
            self@.immediate.len() + self@.background.len() <= usize::MAX,
        ensures
            n == self@.immediate.len() + self@.background.len(),
    {
        self.immediate.len() + self.background.len()
    }

    /// Enqueue one task at the tail of its class and wake the scheduler.
    pub fn queue_task(&mut self, task: UploadTask)
        requires
            old(self).wf(),
        ensures
            final(self).wf(),
            final(self)@ == spec_enqueue(old(self)@, task@),
    {
        let ghost tm = task@;
        match task {
            UploadTask::Immediate { .. } => {
                let ghost before = self.immediate.deep_view();
                self.immediate.push(task);
                proof {
                    assert(self.immediate.deep_view() =~= before.push(tm));
                }
            },
            _ => {
                let ghost before = self.background.deep_view();
                self.background.push(task);
                proof {
                    assert(self.background.deep_view() =~= before.push(tm));
                }
            },
        }
        self.signal = Signal::Proceed;
    }

    /// Enqueue a batch, in order: the startup scan hands recovered work
    /// over in one call.
    pub fn queue_tasks(&mut self, tasks: Vec<UploadTask>)
        requires
            old(self).wf(),
        ensures
            final(self).wf(),
            final(self)@ == spec_enqueue_all(old(self)@, tasks.deep_view()),
    {
        let ghost all = tasks.deep_view();
        let mut rest = tasks;
        while rest.len() > 0
            invariant
                self.wf(),
                spec_enqueue_all(old(self)@, all) == spec_enqueue_all(self@, rest.deep_view()),
            decreases rest.len(),
        {
            let ghost before = rest.deep_view();
            let t = rest.remove(0);
            proof {
                assert(t@ == before[0]);
                assert(rest.deep_view() =~= before.drop_first());
            }
            self.queue_task(t);
        }
        proof {
            assert(rest.deep_view().len() == 0);
        }
    }

    /// Dequeue the next task: the oldest `Immediate` when one is
    /// pending, else the oldest of the background class, else `None`.
    pub fn dequeue(&mut self) -> (r: Option<UploadTask>)
        requires
            old(self).wf(),
        ensures
            final(self).wf(),
            final(self)@.signal == old(self)@.signal,
            match r {
                Some(t) => if old(self)@.immediate.len() > 0 {
                    &&& t@ == old(self)@.immediate[0]
                    &&& final(self)@.immediate == old(self)@.immediate.drop_first()
                    &&& final(self)@.background == old(self)@.background
                } else {
                    &&& old(self)@.background.len() > 0
                    &&& t@ == old(self)@.background[0]
                    &&& final(self)@.immediate == old(self)@.immediate
                    &&& final(self)@.background == old(self)@.background.drop_first()
                },
                None => old(self)@.immediate.len() == 0 && old(self)@.background.len() == 0
                    && final(self)@ == old(self)@,
            },
    {
        if self.immediate.len() > 0 {
            let ghost before = self.immediate.deep_view();
            let t = self.immediate.remove(0);
            proof {
                assert(self.immediate.deep_view() =~= before.drop_first());
            }
            Some(t)
        } else if self.background.len() > 0 {
            let ghost before = self.background.deep_view();
            let t = self.background.remove(0);
            proof {
                assert(self.background.deep_view() =~= before.drop_first());
            }
            Some(t)
        } else {
            None
        }
    }
}

} // verus!
