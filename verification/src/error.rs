//! Error categories of the engine and the scheduler's reaction to each.

use vstd::prelude::*;

verus! {

/// The error categories the engine distinguishes.
#[derive(Debug)]
pub enum StorageError {
    /// An input the caller must not pass: an empty workspace id, parent
    /// dir or file path.
    InvalidInput { msg: String },
    /// Network loss, a remote 5xx or timeout, or an I/O failure while
    /// reading a chunk: worth retrying.
    Transient { msg: String },
    /// The remote reports the workspace storage quota is used up.
    QuotaExceeded,
    /// The remote rejects this single file by its size.
    SingleFileTooLarge,
    /// The cached copy of the file vanished before or between parts.
    MissingLocalFile,
    /// The record to insert already exists; callers treat this as
    /// success but get no progress subscription.
    Duplicate,
    /// No record stands under the given key or upload id.
    RecordNotFound,
    /// A record of an unexpected shape: log and drop.
    Corrupt { msg: String },
}

impl StorageError {
    /// The human-readable message carried by a terminal error event.
    pub open spec fn spec_message(&self) -> Seq<char> {
        match self {
            StorageError::InvalidInput { msg } => msg@,
            StorageError::Transient { msg } => msg@,
            StorageError::QuotaExceeded => "workspace storage quota exceeded"@,
            StorageError::SingleFileTooLarge => "file exceeds the single-file size limit"@,
            StorageError::MissingLocalFile => "local file is missing"@,
            StorageError::Duplicate => "upload record already exists"@,
            StorageError::RecordNotFound => "upload record not found"@,
            StorageError::Corrupt { msg } => msg@,
        }
    }

    pub fn message(&self) -> (r: String)
        ensures
            r@ == self.spec_message(),
    {
        match self {
            StorageError::InvalidInput { msg } => msg.clone(),
            StorageError::Transient { msg } => msg.clone(),
            StorageError::QuotaExceeded => String::from_str("workspace storage quota exceeded"),
            StorageError::SingleFileTooLarge => String::from_str(
                "file exceeds the single-file size limit",
            ),
            StorageError::MissingLocalFile => String::from_str("local file is missing"),
            StorageError::Duplicate => String::from_str("upload record already exists"),
            StorageError::RecordNotFound => String::from_str("upload record not found"),
            StorageError::Corrupt { msg } => msg.clone(),
        }
    }
}

/// An outward notification for the host's notification bus.
#[derive(Clone, Copy, Debug, PartialEq, Eq, Structural)]
pub enum StorageNotification {
    /// The workspace-wide storage quota is exhausted.
    FileStorageLimitExceeded,
    /// One file was rejected because of its size.
    SingleFileLimitExceeded,
}

/// What the scheduler does with a task after a failed upload attempt.
#[derive(Clone, Copy, Debug, PartialEq, Eq, Structural)]
pub enum FailureAction {
    /// Re-enqueue the task at the tail of its class with one fewer retry.
    Retry { remaining: u64 },
    /// Publish a terminal error progress event and drop the task.
    Surface,
    /// Latch the quota flag and notify the host; the record stays
    /// persisted and is re-picked once the host clears the latch.
    LatchQuota,
    /// Delete the record, its parts and the temp file, and notify the
    /// host that the file is too large: terminal.
    DeleteAndNotify,
    /// Delete the record and its parts and publish a terminal error
    /// event: terminal, without a host notification.
    DeleteRecord,
    /// A programmer error: log and drop the task.
    DropTask,
}

/// The reaction the retry policy prescribes for `err` when the failing
/// task still had `retry_count` retries.
pub open spec fn spec_failure_action(err: StorageError, retry_count: u64) -> FailureAction {
    match err {
        StorageError::Transient { .. } => if retry_count > 0 {
            FailureAction::Retry { remaining: (retry_count - 1) as u64 }
        } else {
            FailureAction::Surface
        },
        StorageError::QuotaExceeded => FailureAction::LatchQuota,
        StorageError::SingleFileTooLarge => FailureAction::DeleteAndNotify,
        StorageError::MissingLocalFile => FailureAction::DeleteRecord,
        StorageError::InvalidInput { .. } => FailureAction::DropTask,
        StorageError::Duplicate => FailureAction::DropTask,
        StorageError::RecordNotFound => FailureAction::DropTask,
        StorageError::Corrupt { .. } => FailureAction::DropTask,
    }
}

/// Classify a failed upload attempt: transient errors burn one retry,
/// quota errors latch the quota flag, size errors are terminal, everything
/// else is dropped as a programmer error.
pub fn failure_action(err: &StorageError, retry_count: u64) -> (a: FailureAction)
    ensures
        a == spec_failure_action(*err, retry_count),
{
    match err {
        StorageError::Transient { .. } => {
            if retry_count > 0 {
                FailureAction::Retry { remaining: retry_count - 1 }
            } else {
                FailureAction::Surface
            }
        },
        StorageError::QuotaExceeded => FailureAction::LatchQuota,
        StorageError::SingleFileTooLarge => FailureAction::DeleteAndNotify,
        StorageError::MissingLocalFile => FailureAction::DeleteRecord,
        _ => FailureAction::DropTask,
    }
}

/// The host notification that accompanies an error, if any: quota
/// exhaustion and single-file rejections are surfaced to the host.
pub open spec fn spec_notification_for(err: StorageError) -> Option<StorageNotification> {
    match err {
        StorageError::QuotaExceeded => Some(StorageNotification::FileStorageLimitExceeded),
        StorageError::SingleFileTooLarge => Some(StorageNotification::SingleFileLimitExceeded),
        _ => None,
    }
}

pub fn notification_for(err: &StorageError) -> (n: Option<StorageNotification>)
    ensures
        n == spec_notification_for(*err),
{
    match err {
        StorageError::QuotaExceeded => Some(StorageNotification::FileStorageLimitExceeded),
        StorageError::SingleFileTooLarge => Some(StorageNotification::SingleFileLimitExceeded),
        _ => None,
    }
}

} // verus!
