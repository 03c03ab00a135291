use upload_engine::error::{failure_action, notification_for, FailureAction, StorageError, StorageNotification};
use upload_engine::record::new_upload_record;

const MIB: u64 = 1024 * 1024;

fn mk(s: &str) -> String {
    s.to_string()
}

#[test]
fn transient_errors_retry_while_retries_remain() {
    let err = StorageError::Transient { msg: mk("timeout") };
    assert_eq!(failure_action(&err, 3), FailureAction::Retry { remaining: 2 });
    assert_eq!(failure_action(&err, 1), FailureAction::Retry { remaining: 0 });
    assert_eq!(failure_action(&err, 0), FailureAction::Surface);
}

#[test]
fn terminal_errors_map_to_their_actions() {
    assert_eq!(failure_action(&StorageError::QuotaExceeded, 3), FailureAction::LatchQuota);
    assert_eq!(
        failure_action(&StorageError::SingleFileTooLarge, 3),
        FailureAction::DeleteAndNotify
    );
    assert_eq!(failure_action(&StorageError::MissingLocalFile, 3), FailureAction::DeleteRecord);
    assert_eq!(failure_action(&StorageError::Duplicate, 3), FailureAction::DropTask);
    assert_eq!(failure_action(&StorageError::RecordNotFound, 3), FailureAction::DropTask);
    assert_eq!(
        failure_action(&StorageError::Corrupt { msg: mk("bad") }, 3),
        FailureAction::DropTask
    );
    assert_eq!(
        failure_action(&StorageError::InvalidInput { msg: mk("bad") }, 3),
        FailureAction::DropTask
    );
}

#[test]
fn only_limit_errors_notify_the_host() {
    assert_eq!(
        notification_for(&StorageError::QuotaExceeded),
        Some(StorageNotification::FileStorageLimitExceeded)
    );
    assert_eq!(
        notification_for(&StorageError::SingleFileTooLarge),
        Some(StorageNotification::SingleFileLimitExceeded)
    );
    assert_eq!(notification_for(&StorageError::MissingLocalFile), None);
    assert_eq!(notification_for(&StorageError::Transient { msg: mk("x") }), None);
}

#[test]
fn messages_carry_the_cause() {
    assert_eq!(
        StorageError::Transient { msg: mk("connection reset") }.message(),
        "connection reset"
    );
    assert_eq!(
        StorageError::QuotaExceeded.message(),
        "workspace storage quota exceeded"
    );
    assert_eq!(StorageError::MissingLocalFile.message(), "local file is missing");
}

#[test]
fn new_records_are_chunked_and_typed_from_their_inputs() {
    let r = new_upload_record(
        mk("ws"),
        mk("dir"),
        mk("fid"),
        mk("/cache/photo.png"),
        12 * MIB,
        1_700_000_000,
    );
    assert_eq!(r.workspace_id, "ws");
    assert_eq!(r.parent_dir, "dir");
    assert_eq!(r.file_id, "fid");
    assert_eq!(r.upload_id, "");
    assert_eq!(r.chunk_size, 5 * MIB);
    assert_eq!(r.num_chunk, 3);
    assert_eq!(r.created_at, 1_700_000_000);
    assert!(!r.is_finish);
    // the content type comes from the extension, not from the path itself
    assert_eq!(r.content_type, "image/png");
}

#[test]
fn unknown_extensions_fall_back_to_octet_stream() {
    let r = new_upload_record(
        mk("ws"),
        mk("dir"),
        mk("fid"),
        mk("/cache/blob.zzzz"),
        MIB,
        1_700_000_000,
    );
    assert_eq!(r.content_type, "application/octet-stream");
}
