//! The storage manager: the facade that wires the store, the task
//! queue, the gates and the progress hub together, and the engine-level
//! transitions of the multipart protocol.
//!
//! The host drives the remote calls (initiate, part upload, completion)
//! and hands their outcomes to the transitions below; every decision in
//! between — validation, quota, dedup, checkpointing, retry policy,
//! progress — is made here.

use vstd::prelude::*;
use crate::error::FailureAction;
use crate::error::StorageError;
use crate::error::StorageNotification;
use crate::error::failure_action;
use crate::error::spec_failure_action;
use crate::progress::BROADCAST_CAPACITY;
use crate::progress::EventModel;
use crate::progress::FileUploadState;
use crate::progress::PROGRESS_DONE;
use crate::progress::ProgressHub;
use crate::progress::StateModel;
use crate::progress::new_error_event;
use crate::progress::new_progress_event;
use crate::progress::no_states;
use crate::progress::part_progress;
use crate::progress::spec_event_state;
use crate::progress::spec_part_progress;
use crate::queue::QueueModel;
use crate::queue::Signal;
use crate::queue::TaskModel;
use crate::queue::TaskQueue;
use crate::queue::UploadTask;
use crate::queue::spec_enqueue;
use crate::queue::spec_enqueue_all;
use crate::record::RecordModel;
use crate::record::UploadRecord;
use crate::record::new_upload_record;
use crate::record::spec_new_record;
use crate::store::EntryModel;
use crate::store::UploadStore;
use crate::store::spec_assign_upload_id;
use crate::store::spec_batch;
use crate::store::spec_clear_parts;
use crate::store::spec_delete_upload;
use crate::store::spec_first_key;
use crate::store::spec_first_upload;
use crate::store::spec_is_completed;
use crate::store::spec_mark_completed;
use crate::uploader::Gates;

verus! {

/// What `create_upload` hands back: the remote url of the object and
/// the content fingerprint that identifies the file.
pub struct CreatedUpload {
    pub url: String,
    pub file_id: String,
}

/// A host query's answer: is the file's upload finished?
pub struct FileState {
    pub file_id: String,
    pub is_finish: bool,
}

/// Are `create_upload`'s inputs usable? Empty identities are rejected.
pub open spec fn spec_inputs_valid(w: Seq<char>, p: Seq<char>, path: Seq<char>) -> bool {
    w.len() > 0 && p.len() > 0 && path.len() > 0
}

/// The `Recovered` task that re-enqueues an unfinished record after a
/// restart.
pub open spec fn spec_recovered_task(r: RecordModel) -> TaskModel {
    TaskModel::Recovered {
        workspace_id: r.workspace_id,
        parent_dir: r.parent_dir,
        file_id: r.file_id,
        created_at: r.created_at,
        retry_count: 0,
    }
}

/// The recovery tasks of a batch of records, in order.
pub open spec fn spec_recovered_tasks(rs: Seq<RecordModel>) -> Seq<TaskModel> {
    rs.map_values(|r: RecordModel| spec_recovered_task(r))
}

/// The broadcast buffer once `ev` is appended: the oldest event falls
/// out when the buffer is full.
pub open spec fn spec_broadcast(events: Seq<EventModel>, ev: EventModel) -> Seq<EventModel> {
    if events.len() < BROADCAST_CAPACITY {
        events.push(ev)
    } else {
        events.drop_first().push(ev)
    }
}

/// The storage manager: one per user session.
pub struct StorageManager {
    pub store: UploadStore,
    pub queue: TaskQueue,
    pub gates: Gates,
    pub hub: ProgressHub,
    /// Outward notifications awaiting the host's bus, oldest first.
    pub notifications: Vec<StorageNotification>,
}

/// Did the transition leave the whole engine state alone?
pub open spec fn spec_state_unchanged(a: StorageManager, b: StorageManager) -> bool {
    &&& a.store@ == b.store@
    &&& a.queue@ == b.queue@
    &&& a.gates == b.gates
    &&& a.hub@ == b.hub@
    &&& a.notifications@ == b.notifications@
}

impl StorageManager {
    /// The engine invariant: store, queue and hub are each well formed.
    pub open spec fn wf(&self) -> bool {
        &&& self.store.wf()
        &&& self.queue.wf()
        &&& self.hub.wf()
    }

    /// A fresh engine: empty store, empty queue, open gates, no events.
    pub fn new() -> (m: StorageManager)
        ensures
            m.wf(),
            m.store@ == Seq::<EntryModel>::empty(),
            m.queue@.immediate == Seq::<TaskModel>::empty(),
            m.queue@.background == Seq::<TaskModel>::empty(),
            m.queue@.signal == Signal::Proceed,
            m.gates == (Gates {
                network_reachable: true,
                storage_write_enabled: true,
                quota_exceeded: false,
            }),
            m.hub@.events == Seq::<EventModel>::empty(),
            m.hub@.states == no_states(),
            m.notifications@ == Seq::<StorageNotification>::empty(),
    {
        StorageManager {
            store: UploadStore::new(),
            queue: TaskQueue::new(),
            gates: Gates::new(),
            hub: ProgressHub::new(),
            notifications: Vec::new(),
        }
    }

    /// Session start: storage write access begins enabled.
    pub fn initialize(&mut self)
        requires
            old(self).wf(),
        ensures
            final(self).wf(),
            final(self).gates == (Gates { storage_write_enabled: true, ..old(self).gates }),
            final(self).queue@ == (QueueModel { signal: Signal::Proceed, ..old(self).queue@ }),
            final(self).store@ == old(self).store@,
            final(self).hub@ == old(self).hub@,
            final(self).notifications@ == old(self).notifications@,
    {
        self.enable_storage_write_access();
    }

    /// Host connectivity changed: going offline parks the scheduler (no
    /// further parts are attempted); coming back online wakes it, and
    /// the upload continues from the last persisted part.
    pub fn update_network_reachable(&mut self, reachable: bool)
        requires
            old(self).wf(),
        ensures
            final(self).wf(),
            final(self).gates == (Gates { network_reachable: reachable, ..old(self).gates }),
            final(self).queue@ == (QueueModel {
                signal: if reachable {
                    Signal::Proceed
                } else {
                    Signal::Stop
                },
                ..old(self).queue@
            }),
            final(self).store@ == old(self).store@,
            final(self).hub@ == old(self).hub@,
            final(self).notifications@ == old(self).notifications@,
    {
        self.gates.network_reachable = reachable;
        if reachable {
            self.queue.set_signal(Signal::Proceed);
        } else {
            self.queue.set_signal(Signal::Stop);
        }
    }

    /// Paywall opened: allow writes and wake the scheduler.
    pub fn enable_storage_write_access(&mut self)
        requires
            old(self).wf(),
        ensures
            final(self).wf(),
            final(self).gates == (Gates { storage_write_enabled: true, ..old(self).gates }),
            final(self).queue@ == (QueueModel { signal: Signal::Proceed, ..old(self).queue@ }),
            final(self).store@ == old(self).store@,
            final(self).hub@ == old(self).hub@,
            final(self).notifications@ == old(self).notifications@,
    {
        self.gates.storage_write_enabled = true;
        self.queue.set_signal(Signal::Proceed);
    }

    /// Paywall closed: forbid writes and park the scheduler.
    pub fn disable_storage_write_access(&mut self)
        requires
            old(self).wf(),
        ensures
            final(self).wf(),
            final(self).gates == (Gates { storage_write_enabled: false, ..old(self).gates }),
            final(self).queue@ == (QueueModel { signal: Signal::Stop, ..old(self).queue@ }),
            final(self).store@ == old(self).store@,
            final(self).hub@ == old(self).hub@,
            final(self).notifications@ == old(self).notifications@,
    {
        self.gates.storage_write_enabled = false;
        self.queue.set_signal(Signal::Stop);
    }

    /// The host saw the quota refresh: clear the quota latch and wake the
    /// scheduler; the persisted tasks are picked up again.
    pub fn clear_quota_exceeded(&mut self)
        requires
            old(self).wf(),
        ensures
            final(self).wf(),
            final(self).gates == (Gates { quota_exceeded: false, ..old(self).gates }),
            final(self).queue@ == (QueueModel { signal: Signal::Proceed, ..old(self).queue@ }),
            final(self).store@ == old(self).store@,
            final(self).hub@ == old(self).hub@,
            final(self).notifications@ == old(self).notifications@,
    {
        self.gates.quota_exceeded = false;
        self.queue.set_signal(Signal::Proceed);
    }

    /// Register a new upload. The host has already cached the file at
    /// `local_file_path`, measured `file_size`, fingerprinted the
    /// contents as `file_id` and derived the remote `url`; everything
    /// the engine decides is here: empty inputs are rejected; under an
    /// exceeded quota nothing is persisted, the error is returned and
    /// the host is notified; a record that already exists is a benign
    /// duplicate, returned without a progress subscription and without
    /// any change; otherwise the record is persisted, a task is
    /// enqueued (`Immediate` with three retries, or `Background`), and
    /// the caller may subscribe.
    pub fn create_upload(
        &mut self,
        workspace_id: String,
        parent_dir: String,
        file_path: String,
        local_file_path: String,
        file_id: String,
        file_size: u64,
        url: String,
        created_at: i64,
        upload_immediately: bool,
    ) -> (r: Result<(CreatedUpload, bool), StorageError>)
        requires
            old(self).wf(),
        ensures
            final(self).wf(),
            final(self).gates == old(self).gates,
            final(self).hub@ == old(self).hub@,
            ({
                let valid = spec_inputs_valid(workspace_id@, parent_dir@, file_path@);
                let dup = spec_first_key(
                    old(self).store@,
                    workspace_id@,
                    parent_dir@,
                    file_id@,
                ) is Some;
                let rec = spec_new_record(
                    workspace_id@,
                    parent_dir@,
                    file_id@,
                    local_file_path@,
                    file_size as nat,
                    created_at,
                );
                if !valid {
                    (r matches Err(StorageError::InvalidInput { .. })) && spec_state_unchanged(
                        *old(self),
                        *final(self),
                    )
                } else if old(self).gates.quota_exceeded {
                    &&& r matches Err(StorageError::QuotaExceeded)
                    &&& final(self).store@ == old(self).store@
                    &&& final(self).queue@ == old(self).queue@
                    &&& final(self).notifications@ == old(self).notifications@.push(
                        StorageNotification::FileStorageLimitExceeded,
                    )
                } else if dup {
                    &&& (r matches Ok(c) && c.0.url@ == url@ && c.0.file_id@ == file_id@ && !c.1)
                    &&& spec_state_unchanged(*old(self), *final(self))
                } else {
                    &&& (r matches Ok(c) && c.0.url@ == url@ && c.0.file_id@ == file_id@ && c.1)
                    &&& final(self).store@ == old(self).store@.push(
                        EntryModel { record: rec, etags: Seq::empty() },
                    )
                    &&& final(self).queue@ == spec_enqueue(
                        old(self).queue@,
                        if upload_immediately {
                            TaskModel::Immediate { record: rec, retry_count: 3 }
                        } else {
                            TaskModel::Background {
                                workspace_id: workspace_id@,
                                parent_dir: parent_dir@,
                                file_id: file_id@,
                                created_at,
                                retry_count: 0,
                            }
                        },
                    )
                    &&& final(self).notifications@ == old(self).notifications@
                }
            }),
    {
        if workspace_id.as_str().unicode_len() == 0 {
            return Err(StorageError::InvalidInput { msg: String::from_str("workspace id is empty") });
        }
        if parent_dir.as_str().unicode_len() == 0 {
            return Err(StorageError::InvalidInput { msg: String::from_str("parent dir is empty") });
        }
        if file_path.as_str().unicode_len() == 0 {
            return Err(
                StorageError::InvalidInput { msg: String::from_str("local file path is empty") },
            );
        }
        if self.gates.quota_exceeded {
            self.notifications.push(StorageNotification::FileStorageLimitExceeded);
            return Err(StorageError::QuotaExceeded);
        }
        let record = new_upload_record(
            workspace_id.clone(),
            parent_dir.clone(),
            file_id.clone(),
            local_file_path,
            file_size,
            created_at,
        );
        let task_record = record.clone();
        match self.store.insert_upload_file(record) {
            Ok(()) => {
                let task = if upload_immediately {
                    UploadTask::Immediate { record: task_record, retry_count: 3 }
                } else {
                    UploadTask::Background {
                        workspace_id,
                        parent_dir,
                        file_id: file_id.clone(),
                        created_at,
                        retry_count: 0,
                    }
                };
                self.queue.queue_task(task);
                Ok((CreatedUpload { url, file_id }, true))
            },
            Err(e) => match e {
                StorageError::Duplicate => Ok((CreatedUpload { url, file_id }, false)),
                other => Err(other),
            },
        }
    }

    /// Resolve a dequeued task to its record: an `Immediate` task
    /// carries it; the other classes are looked up by identity and are
    /// dropped silently when the record was deleted meanwhile.
    pub fn resolve_task(&self, task: &UploadTask) -> (r: Option<UploadRecord>)
        ensures
            match task@ {
                TaskModel::Immediate { record, .. } => r is Some && r.unwrap()@ == record,
                _ => (match spec_first_key(
                    self.store@,
                    task@.key().0,
                    task@.key().1,
                    task@.key().2,
                ) {
                    Some(i) => r is Some && r.unwrap()@ == self.store@[i].record,
                    None => r is None,
                }),
            },
    {
        match task {
            UploadTask::Immediate { record, .. } => Some(record.clone()),
            UploadTask::Background { workspace_id, parent_dir, file_id, .. } =>
                self.store.select_upload_file(workspace_id, parent_dir, file_id),
            UploadTask::Recovered { workspace_id, parent_dir, file_id, .. } =>
                self.store.select_upload_file(workspace_id, parent_dir, file_id),
        }
    }

    /// Look the record up for a resume; the driver then continues the
    /// protocol from the last persisted part. `None` when the record is
    /// gone, which the caller treats as nothing to do.
    pub fn resume_upload(&self, workspace_id: &String, parent_dir: &String, file_id: &String) -> (r:
        Option<UploadRecord>)
        ensures
            match spec_first_key(self.store@, workspace_id@, parent_dir@, file_id@) {
                Some(i) => r is Some && r.unwrap()@ == self.store@[i].record,
                None => r is None,
            },
    {
        self.store.select_upload_file(workspace_id, parent_dir, file_id)
    }

    /// The guard before any remote work: when the cached local file has
    /// vanished the record is deleted and the upload aborts with a
    /// terminal `MissingLocalFile`.
    pub fn guard_local_file(&mut self, record: &UploadRecord, file_exists: bool) -> (r: Result<
        (),
        StorageError,
    >)
        requires
            old(self).wf(),
        ensures
            final(self).wf(),
            final(self).queue@ == old(self).queue@,
            final(self).gates == old(self).gates,
            final(self).hub@ == old(self).hub@,
            final(self).notifications@ == old(self).notifications@,
            if file_exists {
                (r is Ok) && final(self).store@ == old(self).store@
            } else {
                (r matches Err(StorageError::MissingLocalFile)) && final(self).store@
                    == spec_delete_upload(old(self).store@, record@.upload_id)
            },
    {
        if file_exists {
            Ok(())
        } else {
            self.store.delete_upload_file(&record.upload_id);
            Err(StorageError::MissingLocalFile)
        }
    }

    /// Persist the session id the remote's initiation returned. The
    /// protocol overwrites whatever was stored before.
    pub fn apply_upload_id(
        &mut self,
        workspace_id: &String,
        parent_dir: &String,
        file_id: &String,
        upload_id: &String,
    )
        requires
            old(self).wf(),
        ensures
            final(self).wf(),
            final(self).queue@ == old(self).queue@,
            final(self).gates == old(self).gates,
            final(self).hub@ == old(self).hub@,
            final(self).notifications@ == old(self).notifications@,
            final(self).store@ == spec_assign_upload_id(
                old(self).store@,
                workspace_id@,
                parent_dir@,
                file_id@,
                upload_id@,
            ),
    {
        self.store.update_upload_file_upload_id(workspace_id, parent_dir, file_id, upload_id);
    }

    /// The remote acknowledged one part: persist its e_tag as the next
    /// checkpointed part and publish the part's progress, `part_num`
    /// thousandths of `num_chunk` capped at 900. Fails, changing
    /// nothing, when the record is gone (`RecordNotFound`) or the part
    /// is not the next in line (`Corrupt`).
    pub fn apply_part_uploaded(
        &mut self,
        record: &UploadRecord,
        part_num: u64,
        e_tag: String,
        url: String,
    ) -> (r: Result<u32, StorageError>)
        requires
            old(self).wf(),
            1 <= part_num <= record@.num_chunk,
        ensures
            final(self).wf(),
            final(self).queue@ == old(self).queue@,
            final(self).gates == old(self).gates,
            final(self).notifications@ == old(self).notifications@,
            ({
                match spec_first_upload(old(self).store@, record@.upload_id) {
                    None => (r matches Err(StorageError::RecordNotFound)) && spec_state_unchanged(
                        *old(self),
                        *final(self),
                    ),
                    Some(i) => ({
                        let e = old(self).store@[i];
                        let p = spec_part_progress(part_num as nat, record@.num_chunk as nat);
                        let ev = EventModel {
                            url: url@,
                            file_id: record@.file_id,
                            progress: p as u32,
                            error: None,
                        };
                        if part_num == e.etags.len() + 1 && part_num <= e.record.num_chunk {
                            &&& (r matches Ok(pr) && pr == p)
                            &&& final(self).store@ == old(self).store@.update(
                                i,
                                EntryModel { record: e.record, etags: e.etags.push(e_tag@) },
                            )
                            &&& final(self).hub@.events == spec_broadcast(old(self).hub@.events, ev)
                            &&& final(self).hub@.states == old(self).hub@.states.insert(
                                record@.file_id,
                                spec_event_state(ev),
                            )
                        } else {
                            (r matches Err(StorageError::Corrupt { .. })) && spec_state_unchanged(
                                *old(self),
                                *final(self),
                            )
                        }
                    }),
                }
            }),
    {
        match self.store.insert_upload_part(&record.upload_id, part_num, e_tag) {
            Err(e) => Err(e),
            Ok(()) => {
                let progress = part_progress(part_num, record.num_chunk);
                let event = new_progress_event(url, record.file_id.clone(), progress);
                self.hub.publish(event);
                Ok(progress)
            },
        }
    }

    /// The remote confirmed assembly: publish completion (progress
    /// 1000) and mark the record finished. Completion is idempotent: a
    /// record already finished stays exactly as it is. The caller then
    /// deletes the cached file.
    pub fn apply_complete_success(&mut self, record: &UploadRecord, url: String)
        requires
            old(self).wf(),
        ensures
            final(self).wf(),
            final(self).queue@ == old(self).queue@,
            final(self).gates == old(self).gates,
            final(self).notifications@ == old(self).notifications@,
            final(self).store@ == spec_mark_completed(old(self).store@, record@.upload_id),
            ({
                let ev = EventModel {
                    url: url@,
                    file_id: record@.file_id,
                    progress: PROGRESS_DONE,
                    error: None,
                };
                &&& final(self).hub@.events == spec_broadcast(old(self).hub@.events, ev)
                &&& final(self).hub@.states == old(self).hub@.states.insert(
                    record@.file_id,
                    StateModel::Finished,
                )
            }),
    {
        let event = new_progress_event(url, record.file_id.clone(), PROGRESS_DONE);
        self.hub.publish(event);
        self.store.update_upload_file_completed(&record.upload_id);
    }

    /// The remote rejected assembly: publish the error, wipe the
    /// checkpointed parts and clear the session id, so that the next
    /// attempt initiates a fresh session and re-uploads from part 1.
    pub fn apply_complete_failure(&mut self, record: &UploadRecord, url: String, err: &StorageError)
        requires
            old(self).wf(),
        ensures
            final(self).wf(),
            final(self).queue@ == old(self).queue@,
            final(self).gates == old(self).gates,
            final(self).notifications@ == old(self).notifications@,
            final(self).store@ == spec_assign_upload_id(
                spec_clear_parts(old(self).store@, record@.upload_id),
                record@.workspace_id,
                record@.parent_dir,
                record@.file_id,
                Seq::<char>::empty(),
            ),
            ({
                let ev = EventModel {
                    url: url@,
                    file_id: record@.file_id,
                    progress: 0,
                    error: Some(err.spec_message()),
                };
                &&& final(self).hub@.events == spec_broadcast(old(self).hub@.events, ev)
                &&& final(self).hub@.states == old(self).hub@.states.insert(
                    record@.file_id,
                    spec_event_state(ev),
                )
            }),
    {
        let event = new_error_event(url, record.file_id.clone(), err.message());
        self.hub.publish(event);
        self.store.delete_all_upload_parts(&record.upload_id);
        let empty_id = String::new();
        self.store.update_upload_file_upload_id(
            &record.workspace_id,
            &record.parent_dir,
            &record.file_id,
            &empty_id,
        );
    }

    /// Consult the retry policy for a failed attempt and carry its
    /// verdict out: a transient failure re-enqueues the task at the
    /// tail of its class with one fewer retry while any remain, and
    /// otherwise surfaces a terminal error event; a workspace quota
    /// error latches the quota flag and notifies the host, leaving the
    /// record persisted for later; a single-file size rejection deletes
    /// the record and notifies the host; a missing local file deletes
    /// the record; anything else drops the task.
    pub fn handle_upload_failure(
        &mut self,
        task: UploadTask,
        record: &UploadRecord,
        url: String,
        err: &StorageError,
    )
        requires
            old(self).wf(),
        ensures
            final(self).wf(),
            ({
                let ev = EventModel {
                    url: url@,
                    file_id: record@.file_id,
                    progress: 0,
                    error: Some(err.spec_message()),
                };
                match spec_failure_action(*err, task@.retry_count()) {
                    FailureAction::Retry { remaining } => {
                        &&& final(self).queue@ == spec_enqueue(
                            old(self).queue@,
                            task@.with_retry(remaining),
                        )
                        &&& final(self).store@ == old(self).store@
                        &&& final(self).gates == old(self).gates
                        &&& final(self).hub@ == old(self).hub@
                        &&& final(self).notifications@ == old(self).notifications@
                    },
                    FailureAction::Surface => {
                        &&& final(self).hub@.events == spec_broadcast(old(self).hub@.events, ev)
                        &&& final(self).hub@.states == old(self).hub@.states.insert(
                            record@.file_id,
                            spec_event_state(ev),
                        )
                        &&& final(self).store@ == old(self).store@
                        &&& final(self).queue@ == old(self).queue@
                        &&& final(self).gates == old(self).gates
                        &&& final(self).notifications@ == old(self).notifications@
                    },
                    FailureAction::LatchQuota => {
                        &&& final(self).gates == (Gates {
                            quota_exceeded: true,
                            ..old(self).gates
                        })
                        &&& final(self).notifications@ == old(self).notifications@.push(
                            StorageNotification::FileStorageLimitExceeded,
                        )
                        &&& final(self).store@ == old(self).store@
                        &&& final(self).queue@ == old(self).queue@
                        &&& final(self).hub@ == old(self).hub@
                    },
                    FailureAction::DeleteAndNotify => {
                        &&& final(self).store@ == spec_delete_upload(
                            old(self).store@,
                            record@.upload_id,
                        )
                        &&& final(self).notifications@ == old(self).notifications@.push(
                            StorageNotification::SingleFileLimitExceeded,
                        )
                        &&& final(self).hub@.events == spec_broadcast(old(self).hub@.events, ev)
                        &&& final(self).hub@.states == old(self).hub@.states.insert(
                            record@.file_id,
                            spec_event_state(ev),
                        )
                        &&& final(self).queue@ == old(self).queue@
                        &&& final(self).gates == old(self).gates
                    },
                    FailureAction::DeleteRecord => {
                        &&& final(self).store@ == spec_delete_upload(
                            old(self).store@,
                            record@.upload_id,
                        )
                        &&& final(self).hub@.events == spec_broadcast(old(self).hub@.events, ev)
                        &&& final(self).hub@.states == old(self).hub@.states.insert(
                            record@.file_id,
                            spec_event_state(ev),
                        )
                        &&& final(self).queue@ == old(self).queue@
                        &&& final(self).gates == old(self).gates
                        &&& final(self).notifications@ == old(self).notifications@
                    },
                    FailureAction::DropTask => spec_state_unchanged(*old(self), *final(self)),
                }
            }),
    {
        let action = failure_action(err, task.retry_count());
        match action {
            FailureAction::Retry { remaining } => {
                let requeued = task.with_retry(remaining);
                self.queue.queue_task(requeued);
            },
            FailureAction::Surface => {
                let event = new_error_event(url, record.file_id.clone(), err.message());
                self.hub.publish(event);
            },
            FailureAction::LatchQuota => {
                self.gates.quota_exceeded = true;
                self.notifications.push(StorageNotification::FileStorageLimitExceeded);
            },
            FailureAction::DeleteAndNotify => {
                let event = new_error_event(url, record.file_id.clone(), err.message());
                self.hub.publish(event);
                self.store.delete_upload_file(&record.upload_id);
                self.notifications.push(StorageNotification::SingleFileLimitExceeded);
            },
            FailureAction::DeleteRecord => {
                let event = new_error_event(url, record.file_id.clone(), err.message());
                self.hub.publish(event);
                self.store.delete_upload_file(&record.upload_id);
            },
            FailureAction::DropTask => {},
        }
    }

    /// The deferred recovery scan: re-enqueue up to `limit` unfinished
    /// records as `Recovered` tasks, in store order.
    pub fn prepare_upload_task(&mut self, limit: usize)
        requires
            old(self).wf(),
        ensures
            final(self).wf(),
            final(self).store@ == old(self).store@,
            final(self).gates == old(self).gates,
            final(self).hub@ == old(self).hub@,
            final(self).notifications@ == old(self).notifications@,
            final(self).queue@ == spec_enqueue_all(
                old(self).queue@,
                spec_recovered_tasks(spec_batch(old(self).store@, limit as nat, false)),
            ),
    {
        let records = self.store.batch_select_upload_file(limit, false);
        let ghost models = records.deep_view();
        let n = records.len();
        let mut tasks: Vec<UploadTask> = Vec::new();
        let mut i: usize = 0;
        proof {
            assert(tasks.deep_view() =~= spec_recovered_tasks(models.take(0)));
        }
        while i < n
            invariant
                n == records@.len(),
                models == records.deep_view(),
                i <= n,
                tasks.deep_view() == spec_recovered_tasks(models.take(i as int)),
            decreases n - i,
        {
            let r = &records[i];
            let ghost before = tasks.deep_view();
            let task = UploadTask::Recovered {
                workspace_id: r.workspace_id.clone(),
                parent_dir: r.parent_dir.clone(),
                file_id: r.file_id.clone(),
                created_at: r.created_at,
                retry_count: 0,
            };
            let ghost tm = task@;
            tasks.push(task);
            proof {
                assert(tm =~~= spec_recovered_task(models[i as int]));
                assert(tasks.deep_view() =~= before.push(tm));
                assert(tasks.deep_view() =~~= spec_recovered_tasks(models.take(i + 1)));
            }
            i = i + 1;
        }
        proof {
            assert(models.take(n as int) =~= models);
        }
        self.queue.queue_tasks(tasks);
    }

    /// Answer a host query for a file's state by its remote url.
    /// `parsed` is the identity the cloud parsed out of the url, `None`
    /// for a foreign url. A url of another workspace answers nothing;
    /// otherwise the store's completion flag is returned and
    /// republished as a progress event: 1000 when finished, 0 when not.
    pub fn query_file_state(
        &mut self,
        url: &String,
        parsed: Option<(String, String, String)>,
        current_workspace: &String,
    ) -> (r: Option<FileState>)
        requires
            old(self).wf(),
        ensures
            final(self).wf(),
            final(self).store@ == old(self).store@,
            final(self).queue@ == old(self).queue@,
            final(self).gates == old(self).gates,
            final(self).notifications@ == old(self).notifications@,
            ({
                match parsed {
                    None => (r is None) && final(self).hub@ == old(self).hub@,
                    Some(t) => if t.0@ != current_workspace@ {
                        (r is None) && final(self).hub@ == old(self).hub@
                    } else {
                        let fin = spec_is_completed(old(self).store@, t.0@, t.1@, t.2@);
                        let ev = EventModel {
                            url: url@,
                            file_id: t.2@,
                            progress: if fin {
                                PROGRESS_DONE
                            } else {
                                0
                            },
                            error: None,
                        };
                        &&& r is Some
                        &&& r.unwrap().file_id@ == t.2@
                        &&& r.unwrap().is_finish == fin
                        &&& final(self).hub@.events == spec_broadcast(old(self).hub@.events, ev)
                        &&& final(self).hub@.states == old(self).hub@.states.insert(
                            t.2@,
                            spec_event_state(ev),
                        )
                    },
                }
            }),
    {
        match parsed {
            None => None,
            Some((workspace_id, parent_dir, file_id)) => {
                if !(workspace_id == *current_workspace) {
                    return None;
                }
                let is_finish = self.store.is_upload_completed(
                    &workspace_id,
                    &parent_dir,
                    &file_id,
                );
                let progress: u32 = if is_finish {
                    PROGRESS_DONE
                } else {
                    0
                };
                let event = new_progress_event(url.clone(), file_id.clone(), progress);
                self.hub.publish(event);
                Some(FileState { file_id, is_finish })
            },
        }
    }

    /// May a subscriber attach to this file's progress? A file the
    /// store already marks complete gets no stream; for any other the
    /// host creates one and catches it up from the last-published
    /// state.
    pub fn subscribe_file_state(
        &self,
        workspace_id: &String,
        parent_dir: &String,
        file_id: &String,
    ) -> (r: bool)
        ensures
            r == !spec_is_completed(self.store@, workspace_id@, parent_dir@, file_id@),
    {
        !self.store.is_upload_completed(workspace_id, parent_dir, file_id)
    }

    /// The last-published state of a file, if any.
    pub fn get_file_state(&self, file_id: &String) -> (r: Option<FileUploadState>)
        ensures
            match r {
                Some(st) => self.hub@.states.contains_key(file_id@) && self.hub@.states[file_id@]
                    == st@,
                None => !self.hub@.states.contains_key(file_id@),
            },
    {
        self.hub.snapshot(file_id)
    }

    /// Drain the outward notifications for the host's bus.
    pub fn take_notifications(&mut self) -> (r: Vec<StorageNotification>)
        ensures
            r@ == old(self).notifications@,
            final(self).notifications@ == Seq::<StorageNotification>::empty(),
            final(self).store@ == old(self).store@,
            final(self).queue@ == old(self).queue@,
            final(self).gates == old(self).gates,
            final(self).hub@ == old(self).hub@,
            final(self).wf() == old(self).wf(),
    {
        let mut out: Vec<StorageNotification> = Vec::new();
        core::mem::swap(&mut out, &mut self.notifications);
        out
    }
}

} // verus!
