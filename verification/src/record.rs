//! The durable upload record: one row per file being uploaded, keyed by
//! `(workspace_id, parent_dir, file_id)`.

use vstd::prelude::*;
use crate::chunk::MIN_CHUNK_SIZE;
use crate::chunk::num_chunks;
use crate::chunk::spec_num_chunks;

verus! {

/// The MIME type that `mime_guess` derives from a path's extension: a
/// pure function of the path's characters.
pub uninterp spec fn mime_of(path: Seq<char>) -> Seq<char>;

/// Relies on `mime_guess::from_path` and `MimeGuess::first_or_octet_stream`:
/// the guess depends on the path (its extension) alone, and falls back to
/// `application/octet-stream` when no extension matches.
#[verifier::external_body]
fn content_type_of(path: &String) -> (r: String)
    ensures
        r@ == mime_of(path@),
{
    mime_guess::from_path(path.as_str()).first_or_octet_stream().to_string()
}

/// The mathematical model of an upload record: every string as its
/// character sequence.
#[verifier::ext_equal]
pub struct RecordModel {
    pub workspace_id: Seq<char>,
    pub parent_dir: Seq<char>,
    pub file_id: Seq<char>,
    pub upload_id: Seq<char>,
    pub local_file_path: Seq<char>,
    pub content_type: Seq<char>,
    pub chunk_size: u64,
    pub num_chunk: u64,
    pub created_at: i64,
    pub is_finish: bool,
}

impl RecordModel {
    /// The primary key of the record.
    pub open spec fn key(self) -> (Seq<char>, Seq<char>, Seq<char>) {
        (self.workspace_id, self.parent_dir, self.file_id)
    }

    /// A record is well formed when its chunk size is at least the
    /// engine's minimum.
    pub open spec fn wf(self) -> bool {
        self.chunk_size >= MIN_CHUNK_SIZE
    }

    /// The record once the remote session `upload_id` is assigned;
    /// every other field is untouched.
    pub open spec fn with_upload_id(self, upload_id: Seq<char>) -> RecordModel {
        RecordModel { upload_id, ..self }
    }

    /// The record once the upload is marked finished.
    pub open spec fn with_finished(self) -> RecordModel {
        RecordModel { is_finish: true, ..self }
    }
}

/// One persistent upload record. `upload_id` is the remote session token;
/// the empty string means the upload was not initiated yet. `num_chunk`
/// is fixed at creation as `ceil(file_size / chunk_size)` and no
/// operation of the engine changes it afterwards.
pub struct UploadRecord {
    pub workspace_id: String,
    pub parent_dir: String,
    pub file_id: String,
    pub upload_id: String,
    pub local_file_path: String,
    pub content_type: String,
    pub chunk_size: u64,
    pub num_chunk: u64,
    pub created_at: i64,
    pub is_finish: bool,
}

impl View for UploadRecord {
    type V = RecordModel;

    open spec fn view(&self) -> RecordModel {
        RecordModel {
            workspace_id: self.workspace_id@,
            parent_dir: self.parent_dir@,
            file_id: self.file_id@,
            upload_id: self.upload_id@,
            local_file_path: self.local_file_path@,
            content_type: self.content_type@,
            chunk_size: self.chunk_size,
            num_chunk: self.num_chunk,
            created_at: self.created_at,
            is_finish: self.is_finish,
        }
    }
}

impl DeepView for UploadRecord {
    type V = RecordModel;

    open spec fn deep_view(&self) -> RecordModel {
        self@
    }
}

impl UploadRecord {
    /// A record is well formed when its chunk size is at least the
    /// engine's minimum.
    pub open spec fn wf(self) -> bool {
        self@.wf()
    }
}

impl Clone for UploadRecord {
    fn clone(&self) -> (res: Self)
        ensures
            res == *self,
    {
        UploadRecord {
            workspace_id: self.workspace_id.clone(),
            parent_dir: self.parent_dir.clone(),
            file_id: self.file_id.clone(),
            upload_id: self.upload_id.clone(),
            local_file_path: self.local_file_path.clone(),
            content_type: self.content_type.clone(),
            chunk_size: self.chunk_size,
            num_chunk: self.num_chunk,
            created_at: self.created_at,
            is_finish: self.is_finish,
        }
    }
}

/// The model of a fresh record for a file of `file_size` bytes: not yet
/// initiated, not finished, chunked by the engine's minimum chunk size.
pub open spec fn spec_new_record(
    workspace_id: Seq<char>,
    parent_dir: Seq<char>,
    file_id: Seq<char>,
    local_file_path: Seq<char>,
    file_size: nat,
    created_at: i64,
) -> RecordModel {
    RecordModel {
        workspace_id,
        parent_dir,
        file_id,
        upload_id: Seq::empty(),
        local_file_path,
        content_type: mime_of(local_file_path),
        chunk_size: MIN_CHUNK_SIZE,
        num_chunk: spec_num_chunks(file_size, MIN_CHUNK_SIZE as nat) as u64,
        created_at,
        is_finish: false,
    }
}

/// Build a fresh record for a file of `file_size` bytes cached at
/// `local_file_path`. The part count is the ceiling of the file size
/// over the engine's minimum chunk size, the remote session is not yet
/// initiated, and the content type is guessed from the path.
pub fn new_upload_record(
    workspace_id: String,
    parent_dir: String,
    file_id: String,
    local_file_path: String,
    file_size: u64,
    created_at: i64,
) -> (r: UploadRecord)
    ensures
        r.workspace_id == workspace_id,
        r.parent_dir == parent_dir,
        r.file_id == file_id,
        r.local_file_path == local_file_path,
        r.upload_id@ == Seq::<char>::empty(),
        r.content_type@ == mime_of(local_file_path@),
        r.chunk_size == MIN_CHUNK_SIZE,
        r.num_chunk == spec_num_chunks(file_size as nat, MIN_CHUNK_SIZE as nat),
        r.created_at == created_at,
        !r.is_finish,
        r.wf(),
        r@ == spec_new_record(
            workspace_id@,
            parent_dir@,
            file_id@,
            local_file_path@,
            file_size as nat,
            created_at,
        ),
{
    let content_type = content_type_of(&local_file_path);
    let num_chunk = num_chunks(file_size, MIN_CHUNK_SIZE);
    UploadRecord {
        workspace_id,
        parent_dir,
        file_id,
        upload_id: String::new(),
        local_file_path,
        content_type,
        chunk_size: MIN_CHUNK_SIZE,
        num_chunk,
        created_at,
        is_finish: false,
    }
}

} // verus!
