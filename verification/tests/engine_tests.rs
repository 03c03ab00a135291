use upload_engine::error::{StorageError, StorageNotification};
use upload_engine::manager::StorageManager;
use upload_engine::progress::{FileUploadState, PROGRESS_PART_CAP};
use upload_engine::queue::{Signal, UploadTask};
use upload_engine::record::UploadRecord;
use upload_engine::uploader::{next_step, uploader_turn, ProtocolStep};

const MIB: u64 = 1024 * 1024;

fn mk(s: &str) -> String {
    s.to_string()
}

fn url_of(fid: &str) -> String {
    format!("https://cloud/ws/dir/{}", fid)
}

/// Register an upload of `size` bytes and hand back the created record.
fn create(m: &mut StorageManager, fid: &str, size: u64, immediately: bool) -> UploadRecord {
    let (created, subscribed) = m
        .create_upload(
            mk("ws"),
            mk("dir"),
            mk("/home/user/file.png"),
            mk("/cache/file.png"),
            mk(fid),
            size,
            url_of(fid),
            1_700_000_000,
            immediately,
        )
        .unwrap();
    assert_eq!(created.file_id, fid);
    assert!(subscribed);
    m.resume_upload(&mk("ws"), &mk("dir"), &mk(fid)).unwrap()
}

/// Drive the protocol until the remote would be asked to assemble:
/// initiate with `uid`, then acknowledge every remaining part.
fn upload_parts(m: &mut StorageManager, fid: &str, uid: &str, upto: u64) -> UploadRecord {
    let record = m.resume_upload(&mk("ws"), &mk("dir"), &mk(fid)).unwrap();
    let record = if record.upload_id.is_empty() {
        assert_eq!(next_step(&record, 0), ProtocolStep::Initiate);
        m.apply_upload_id(&mk("ws"), &mk("dir"), &mk(fid), &mk(uid));
        m.resume_upload(&mk("ws"), &mk("dir"), &mk(fid)).unwrap()
    } else {
        record
    };
    let done = m.store.select_upload_parts(&record.upload_id).len() as u64;
    for part in (done + 1)..=upto {
        let e_tag = format!("etag-{}", part);
        m.apply_part_uploaded(&record, part, e_tag, url_of(fid)).unwrap();
    }
    record
}

#[test]
fn happy_path_three_chunks() {
    let mut m = StorageManager::new();
    let record = create(&mut m, "f1", 12 * MIB, true);
    assert_eq!(record.num_chunk, 3);
    assert_eq!(record.chunk_size, 5 * MIB);
    assert!(!record.is_finish);

    let task = m.queue.dequeue().unwrap();
    assert!(matches!(task, UploadTask::Immediate { retry_count: 3, .. }));
    let record = m.resolve_task(&task).unwrap();
    assert_eq!(next_step(&record, 0), ProtocolStep::Initiate);

    m.apply_upload_id(&mk("ws"), &mk("dir"), &mk("f1"), &mk("uid-1"));
    let record = m.resume_upload(&mk("ws"), &mk("dir"), &mk("f1")).unwrap();
    assert_eq!(record.upload_id, "uid-1");

    let p1 = m.apply_part_uploaded(&record, 1, mk("e1"), url_of("f1")).unwrap();
    let p2 = m.apply_part_uploaded(&record, 2, mk("e2"), url_of("f1")).unwrap();
    let p3 = m.apply_part_uploaded(&record, 3, mk("e3"), url_of("f1")).unwrap();
    assert_eq!((p1, p2, p3), (333, 666, PROGRESS_PART_CAP));

    assert!(matches!(
        m.get_file_state(&mk("f1")),
        Some(FileUploadState::Uploading { progress: 900 })
    ));
    assert_eq!(next_step(&record, 3), ProtocolStep::Complete);

    m.apply_complete_success(&record, url_of("f1"));
    assert!(matches!(m.get_file_state(&mk("f1")), Some(FileUploadState::Finished)));
    assert!(m.store.is_upload_completed(&mk("ws"), &mk("dir"), &mk("f1")));
}

#[test]
fn restart_resumes_after_the_persisted_parts() {
    let mut m = StorageManager::new();
    create(&mut m, "f1", 15 * MIB, false);
    let record = upload_parts(&mut m, "f1", "uid-1", 2);
    assert_eq!(m.store.select_upload_parts(&record.upload_id).len(), 2);

    // the process dies: the in-memory queue is gone, the store survives
    while m.queue.dequeue().is_some() {}

    // the deferred recovery scan re-enqueues the unfinished record
    m.prepare_upload_task(100);
    let task = m.queue.dequeue().unwrap();
    assert!(matches!(task, UploadTask::Recovered { retry_count: 0, .. }));
    let record = m.resolve_task(&task).unwrap();
    let parts = m.store.select_upload_parts(&record.upload_id);
    assert_eq!(parts.len(), 2);
    assert_eq!(
        next_step(&record, parts.len() as u64),
        ProtocolStep::UploadPart { part_num: 3 }
    );
}

#[test]
fn network_outage_parks_the_scheduler_and_resume_retries_part_two() {
    let mut m = StorageManager::new();
    create(&mut m, "f1", 20 * MIB, false);
    let record = upload_parts(&mut m, "f1", "uid-1", 1);
    assert_eq!(record.num_chunk, 4);

    // the network goes away while part 2 would be next
    m.update_network_reachable(false);
    assert_eq!(m.queue.signal(), Signal::Stop);
    let turn = uploader_turn(&m.gates, &mut m.queue);
    assert!(turn.is_none());

    // back online: the task is picked up and part 2 is retried from the
    // last persisted offset
    m.update_network_reachable(true);
    assert_eq!(m.queue.signal(), Signal::Proceed);
    let task = uploader_turn(&m.gates, &mut m.queue).unwrap();
    let record = m.resolve_task(&task).unwrap();
    let parts = m.store.select_upload_parts(&record.upload_id);
    assert_eq!(parts.len(), 1);
    assert_eq!(
        next_step(&record, parts.len() as u64),
        ProtocolStep::UploadPart { part_num: 2 }
    );
}

#[test]
fn quota_rejects_new_uploads_and_notifies_the_host() {
    let mut m = StorageManager::new();
    create(&mut m, "f1", 6 * MIB, true);
    let task = m.queue.dequeue().unwrap();
    let record = m.resolve_task(&task).unwrap();

    // the remote reports the workspace quota is used up
    m.handle_upload_failure(task, &record, url_of("f1"), &StorageError::QuotaExceeded);
    assert!(m.gates.quota_exceeded);
    assert_eq!(
        m.take_notifications(),
        vec![StorageNotification::FileStorageLimitExceeded]
    );

    // while the quota flag is latched nothing new is accepted or persisted
    let records_before = m.store.num_records();
    let r = m.create_upload(
        mk("ws"),
        mk("dir"),
        mk("/home/user/other.png"),
        mk("/cache/other.png"),
        mk("f2"),
        6 * MIB,
        url_of("f2"),
        1_700_000_001,
        true,
    );
    assert!(matches!(r, Err(StorageError::QuotaExceeded)));
    assert_eq!(m.store.num_records(), records_before);
    assert_eq!(
        m.take_notifications(),
        vec![StorageNotification::FileStorageLimitExceeded]
    );

    // the scheduler stays parked until the host clears the latch
    assert!(uploader_turn(&m.gates, &mut m.queue).is_none());
    m.clear_quota_exceeded();
    assert!(!m.gates.quota_exceeded);
}

#[test]
fn duplicate_create_upload_is_benign() {
    let mut m = StorageManager::new();
    create(&mut m, "f1", 6 * MIB, true);
    let (created, subscribed) = m
        .create_upload(
            mk("ws"),
            mk("dir"),
            mk("/home/user/file.png"),
            mk("/cache/file.png"),
            mk("f1"),
            6 * MIB,
            url_of("f1"),
            1_700_000_002,
            true,
        )
        .unwrap();
    assert_eq!(created.url, url_of("f1"));
    assert_eq!(created.file_id, "f1");
    assert!(!subscribed);
    assert_eq!(m.store.num_records(), 1);
    assert_eq!(m.queue.pending_count(), 1);
}

#[test]
fn complete_failure_forces_a_fresh_session() {
    let mut m = StorageManager::new();
    create(&mut m, "f1", 12 * MIB, false);
    let record = upload_parts(&mut m, "f1", "uid-1", 3);
    assert_eq!(next_step(&record, 3), ProtocolStep::Complete);

    let err = StorageError::Transient { msg: mk("assembly failed") };
    m.apply_complete_failure(&record, url_of("f1"), &err);

    // the checkpointed parts are wiped and the session id is cleared
    assert_eq!(m.store.select_upload_parts(&mk("uid-1")).len(), 0);
    let record = m.resume_upload(&mk("ws"), &mk("dir"), &mk("f1")).unwrap();
    assert_eq!(record.upload_id, "");
    assert_eq!(next_step(&record, 0), ProtocolStep::Initiate);
    assert!(matches!(m.get_file_state(&mk("f1")), Some(FileUploadState::Failed { .. })));

    // a resume initiates a fresh session and re-uploads from part 1
    let record = upload_parts(&mut m, "f1", "uid-2", 3);
    assert_eq!(record.upload_id, "uid-2");
    assert_eq!(m.store.select_upload_parts(&mk("uid-2")).len(), 3);
    m.apply_complete_success(&record, url_of("f1"));
    assert!(m.store.is_upload_completed(&mk("ws"), &mk("dir"), &mk("f1")));
}

#[test]
fn transient_failures_burn_retries_then_surface() {
    let mut m = StorageManager::new();
    create(&mut m, "f1", 6 * MIB, true);
    let task = m.queue.dequeue().unwrap();
    let record = m.resolve_task(&task).unwrap();
    let err = StorageError::Transient { msg: mk("connection reset") };

    m.handle_upload_failure(task, &record, url_of("f1"), &err);
    let task = m.queue.dequeue().unwrap();
    assert!(matches!(task, UploadTask::Immediate { retry_count: 2, .. }));

    m.handle_upload_failure(task, &record, url_of("f1"), &err);
    let task = m.queue.dequeue().unwrap();
    assert!(matches!(task, UploadTask::Immediate { retry_count: 1, .. }));

    m.handle_upload_failure(task, &record, url_of("f1"), &err);
    let task = m.queue.dequeue().unwrap();
    assert!(matches!(task, UploadTask::Immediate { retry_count: 0, .. }));

    // out of retries: the error surfaces as the file's terminal state
    m.handle_upload_failure(task, &record, url_of("f1"), &err);
    assert!(m.queue.dequeue().is_none());
    match m.get_file_state(&mk("f1")) {
        Some(FileUploadState::Failed { msg }) => assert_eq!(msg, "connection reset"),
        other => panic!("unexpected state: {:?}", other),
    }
}

#[test]
fn single_file_too_large_deletes_the_record_and_notifies() {
    let mut m = StorageManager::new();
    create(&mut m, "f1", 6 * MIB, true);
    let record = upload_parts(&mut m, "f1", "uid-1", 0);
    let task = m.queue.dequeue().unwrap();

    m.handle_upload_failure(task, &record, url_of("f1"), &StorageError::SingleFileTooLarge);
    assert_eq!(m.store.num_records(), 0);
    assert_eq!(
        m.take_notifications(),
        vec![StorageNotification::SingleFileLimitExceeded]
    );
    assert!(matches!(m.get_file_state(&mk("f1")), Some(FileUploadState::Failed { .. })));
}

#[test]
fn missing_local_file_is_terminal() {
    let mut m = StorageManager::new();
    create(&mut m, "f1", 6 * MIB, false);
    let record = upload_parts(&mut m, "f1", "uid-1", 0);
    let r = m.guard_local_file(&record, false);
    assert!(matches!(r, Err(StorageError::MissingLocalFile)));
    assert_eq!(m.store.num_records(), 0);
}

#[test]
fn empty_inputs_are_rejected() {
    let mut m = StorageManager::new();
    let r = m.create_upload(
        mk(""),
        mk("dir"),
        mk("/home/user/file.png"),
        mk("/cache/file.png"),
        mk("f1"),
        6 * MIB,
        url_of("f1"),
        1_700_000_000,
        true,
    );
    assert!(matches!(r, Err(StorageError::InvalidInput { .. })));
    let r = m.create_upload(
        mk("ws"),
        mk(""),
        mk("/home/user/file.png"),
        mk("/cache/file.png"),
        mk("f1"),
        6 * MIB,
        url_of("f1"),
        1_700_000_000,
        true,
    );
    assert!(matches!(r, Err(StorageError::InvalidInput { .. })));
    let r = m.create_upload(
        mk("ws"),
        mk("dir"),
        mk(""),
        mk("/cache/file.png"),
        mk("f1"),
        6 * MIB,
        url_of("f1"),
        1_700_000_000,
        true,
    );
    assert!(matches!(r, Err(StorageError::InvalidInput { .. })));
    assert_eq!(m.store.num_records(), 0);
}

#[test]
fn query_file_state_answers_for_the_own_workspace_only() {
    let mut m = StorageManager::new();
    create(&mut m, "f1", 6 * MIB, false);

    let none = m.query_file_state(&url_of("f1"), None, &mk("ws"));
    assert!(none.is_none());

    let foreign = m.query_file_state(
        &url_of("f1"),
        Some((mk("other-ws"), mk("dir"), mk("f1"))),
        &mk("ws"),
    );
    assert!(foreign.is_none());

    let state = m
        .query_file_state(&url_of("f1"), Some((mk("ws"), mk("dir"), mk("f1"))), &mk("ws"))
        .unwrap();
    assert_eq!(state.file_id, "f1");
    assert!(!state.is_finish);

    let record = upload_parts(&mut m, "f1", "uid-1", 2);
    m.apply_complete_success(&record, url_of("f1"));
    let state = m
        .query_file_state(&url_of("f1"), Some((mk("ws"), mk("dir"), mk("f1"))), &mk("ws"))
        .unwrap();
    assert!(state.is_finish);
    assert!(matches!(m.get_file_state(&mk("f1")), Some(FileUploadState::Finished)));
}

#[test]
fn subscription_is_refused_once_complete() {
    let mut m = StorageManager::new();
    create(&mut m, "f1", 6 * MIB, false);
    assert!(m.subscribe_file_state(&mk("ws"), &mk("dir"), &mk("f1")));
    let record = upload_parts(&mut m, "f1", "uid-1", 2);
    m.apply_complete_success(&record, url_of("f1"));
    assert!(!m.subscribe_file_state(&mk("ws"), &mk("dir"), &mk("f1")));
}

#[test]
fn storage_write_access_gates_the_scheduler() {
    let mut m = StorageManager::new();
    create(&mut m, "f1", 6 * MIB, true);
    m.disable_storage_write_access();
    assert!(uploader_turn(&m.gates, &mut m.queue).is_none());
    assert_eq!(m.queue.signal(), Signal::Stop);
    m.enable_storage_write_access();
    assert_eq!(m.queue.signal(), Signal::Proceed);
    assert!(uploader_turn(&m.gates, &mut m.queue).is_some());
}
