//! The durable upload store: the records of all uploads and, per upload,
//! the parts the remote has acknowledged.
//!
//! An acknowledged part is kept as its `e_tag`, positionally: the tag at
//! index `k` belongs to part `k + 1`. The persisted parts of an upload
//! therefore always form the gapless ascending prefix `1 ..= k`, and the
//! store invariant bounds `k` by the record's `num_chunk`.

use vstd::prelude::*;
use crate::error::StorageError;
use crate::record::RecordModel;
use crate::record::UploadRecord;

verus! {

/// The mathematical model of one stored upload.
#[verifier::ext_equal]
pub struct EntryModel {
    pub record: RecordModel,
    /// `etags[k]` is the e_tag the remote returned for part `k + 1`.
    pub etags: Seq<Seq<char>>,
}

/// Does the entry carry the primary key `(w, p, f)`?
pub open spec fn key_matches(e: EntryModel, w: Seq<char>, p: Seq<char>, f: Seq<char>) -> bool {
    e.record.key() == (w, p, f)
}

/// Does the entry carry the (nonempty) remote session id `uid`? The
/// empty string means "not initiated" and addresses no entry.
pub open spec fn uid_matches(e: EntryModel, uid: Seq<char>) -> bool {
    e.record.upload_id == uid && uid.len() > 0
}

/// Index of the first entry with primary key `(w, p, f)`.
pub open spec fn spec_first_key(
    s: Seq<EntryModel>,
    w: Seq<char>,
    p: Seq<char>,
    f: Seq<char>,
) -> Option<int>
    decreases s.len(),
{
    if s.len() == 0 {
        None
    } else if key_matches(s[0], w, p, f) {
        Some(0int)
    } else {
        match spec_first_key(s.drop_first(), w, p, f) {
            Some(i) => Some(i + 1),
            None => None,
        }
    }
}

/// Index of the first entry with remote session id `uid`.
pub open spec fn spec_first_upload(s: Seq<EntryModel>, uid: Seq<char>) -> Option<int>
    decreases s.len(),
{
    if s.len() == 0 {
        None
    } else if uid_matches(s[0], uid) {
        Some(0int)
    } else {
        match spec_first_upload(s.drop_first(), uid) {
            Some(i) => Some(i + 1),
            None => None,
        }
    }
}

/// `spec_first_key` finds the first match: the returned index matches
/// and nothing before it does; `None` means nothing matches at all.
pub proof fn lemma_first_key_char(s: Seq<EntryModel>, w: Seq<char>, p: Seq<char>, f: Seq<char>)
    ensures
        match spec_first_key(s, w, p, f) {
            Some(i) => 0 <= i < s.len() && key_matches(s[i], w, p, f) && (forall|j: int|
                0 <= j < i ==> !key_matches(#[trigger] s[j], w, p, f)),
            None => forall|j: int| 0 <= j < s.len() ==> !key_matches(#[trigger] s[j], w, p, f),
        },
    decreases s.len(),
{
    if s.len() == 0 {
    } else if key_matches(s[0], w, p, f) {
    } else {
        let t = s.drop_first();
        lemma_first_key_char(t, w, p, f);
        match spec_first_key(t, w, p, f) {
            Some(i) => {
                assert(t[i] == s[i + 1]);
                assert forall|j: int| 0 <= j < i + 1 implies !key_matches(
                    #[trigger] s[j],
                    w,
                    p,
                    f,
                ) by {
                    if j > 0 {
                        assert(!key_matches(t[j - 1], w, p, f));
                        assert(t[j - 1] == s[j]);
                    }
                }
            },
            None => {
                assert forall|j: int| 0 <= j < s.len() implies !key_matches(
                    #[trigger] s[j],
                    w,
                    p,
                    f,
                ) by {
                    if j > 0 {
                        assert(!key_matches(t[j - 1], w, p, f));
                        assert(t[j - 1] == s[j]);
                    }
                }
            },
        }
    }
}

/// Converse: an index that matches with no earlier match is the result.
pub proof fn lemma_first_key_at(
    s: Seq<EntryModel>,
    w: Seq<char>,
    p: Seq<char>,
    f: Seq<char>,
    i: int,
)
    requires
        0 <= i < s.len(),
        key_matches(s[i], w, p, f),
        forall|j: int| 0 <= j < i ==> !key_matches(#[trigger] s[j], w, p, f),
    ensures
        spec_first_key(s, w, p, f) == Some(i),
{
    lemma_first_key_char(s, w, p, f);
    match spec_first_key(s, w, p, f) {
        Some(k) => {
            if k < i {
                assert(!key_matches(s[k], w, p, f));
            } else if k > i {
                assert(!key_matches(s[i], w, p, f));
            }
        },
        None => {
            assert(!key_matches(s[i], w, p, f));
        },
    }
}

/// Converse: when nothing matches, nothing is found.
pub proof fn lemma_first_key_none(s: Seq<EntryModel>, w: Seq<char>, p: Seq<char>, f: Seq<char>)
    requires
        forall|j: int| 0 <= j < s.len() ==> !key_matches(#[trigger] s[j], w, p, f),
    ensures
        spec_first_key(s, w, p, f) == None::<int>,
{
    lemma_first_key_char(s, w, p, f);
    match spec_first_key(s, w, p, f) {
        Some(k) => {
            assert(!key_matches(s[k], w, p, f));
        },
        None => {},
    }
}

/// `spec_first_upload` finds the first match, as `spec_first_key` does.
pub proof fn lemma_first_upload_char(s: Seq<EntryModel>, uid: Seq<char>)
    ensures
        match spec_first_upload(s, uid) {
            Some(i) => 0 <= i < s.len() && uid_matches(s[i], uid) && (forall|j: int|
                0 <= j < i ==> !uid_matches(#[trigger] s[j], uid)),
            None => forall|j: int| 0 <= j < s.len() ==> !uid_matches(#[trigger] s[j], uid),
        },
    decreases s.len(),
{
    if s.len() == 0 {
    } else if uid_matches(s[0], uid) {
    } else {
        let t = s.drop_first();
        lemma_first_upload_char(t, uid);
        match spec_first_upload(t, uid) {
            Some(i) => {
                assert(t[i] == s[i + 1]);
                assert forall|j: int| 0 <= j < i + 1 implies !uid_matches(#[trigger] s[j], uid) by {
                    if j > 0 {
                        assert(!uid_matches(t[j - 1], uid));
                        assert(t[j - 1] == s[j]);
                    }
                }
            },
            None => {
                assert forall|j: int| 0 <= j < s.len() implies !uid_matches(#[trigger] s[j], uid) by {
                    if j > 0 {
                        assert(!uid_matches(t[j - 1], uid));
                        assert(t[j - 1] == s[j]);
                    }
                }
            },
        }
    }
}

/// Converse: an index that matches with no earlier match is the result.
pub proof fn lemma_first_upload_at(s: Seq<EntryModel>, uid: Seq<char>, i: int)
    requires
        0 <= i < s.len(),
        uid_matches(s[i], uid),
        forall|j: int| 0 <= j < i ==> !uid_matches(#[trigger] s[j], uid),
    ensures
        spec_first_upload(s, uid) == Some(i),
{
    lemma_first_upload_char(s, uid);
    match spec_first_upload(s, uid) {
        Some(k) => {
            if k < i {
                assert(!uid_matches(s[k], uid));
            } else if k > i {
                assert(!uid_matches(s[i], uid));
            }
        },
        None => {
            assert(!uid_matches(s[i], uid));
        },
    }
}

/// Converse: when nothing matches, nothing is found.
pub proof fn lemma_first_upload_none(s: Seq<EntryModel>, uid: Seq<char>)
    requires
        forall|j: int| 0 <= j < s.len() ==> !uid_matches(#[trigger] s[j], uid),
    ensures
        spec_first_upload(s, uid) == None::<int>,
{
    lemma_first_upload_char(s, uid);
    match spec_first_upload(s, uid) {
        Some(k) => {
            assert(!uid_matches(s[k], uid));
        },
        None => {},
    }
}

/// The invariant of one entry: parts never outnumber the chunks, and an
/// upload that was never initiated has no parts.
pub open spec fn entry_inv(e: EntryModel) -> bool {
    &&& e.record.wf()
    &&& e.etags.len() <= e.record.num_chunk
    &&& e.record.upload_id.len() == 0 ==> e.etags.len() == 0
}

/// The store invariant: every entry is well formed and primary keys are
/// unique.
pub open spec fn store_inv(s: Seq<EntryModel>) -> bool {
    &&& forall|i: int| 0 <= i < s.len() ==> entry_inv(#[trigger] s[i])
    &&& forall|i: int, j: int|
        0 <= i < j < s.len() ==> (#[trigger] s[i]).record.key() != (#[trigger] s[j]).record.key()
}

/// The store once `upload_id` is assigned to the record keyed by
/// `(w, p, f)`. Assigning the empty id marks the upload "not initiated"
/// again and discards its checkpointed parts.
pub open spec fn spec_assign_upload_id(
    s: Seq<EntryModel>,
    w: Seq<char>,
    p: Seq<char>,
    f: Seq<char>,
    uid: Seq<char>,
) -> Seq<EntryModel> {
    match spec_first_key(s, w, p, f) {
        Some(i) => s.update(
            i,
            EntryModel {
                record: s[i].record.with_upload_id(uid),
                etags: if uid.len() == 0 {
                    Seq::empty()
                } else {
                    s[i].etags
                },
            },
        ),
        None => s,
    }
}

/// The store once the upload with session id `uid` is marked finished.
pub open spec fn spec_mark_completed(s: Seq<EntryModel>, uid: Seq<char>) -> Seq<EntryModel> {
    match spec_first_upload(s, uid) {
        Some(i) => s.update(
            i,
            EntryModel { record: s[i].record.with_finished(), etags: s[i].etags },
        ),
        None => s,
    }
}

/// The store once the checkpointed parts of upload `uid` are wiped.
pub open spec fn spec_clear_parts(s: Seq<EntryModel>, uid: Seq<char>) -> Seq<EntryModel> {
    match spec_first_upload(s, uid) {
        Some(i) => s.update(i, EntryModel { record: s[i].record, etags: Seq::empty() }),
        None => s,
    }
}

/// The store once the record of upload `uid` is deleted; its parts go
/// with it.
pub open spec fn spec_delete_upload(s: Seq<EntryModel>, uid: Seq<char>) -> Seq<EntryModel> {
    match spec_first_upload(s, uid) {
        Some(i) => s.remove(i),
        None => s,
    }
}

/// The unfinished (or, with `finished`, the finished) records, in store
/// order, at most `limit` of them.
pub open spec fn spec_batch(s: Seq<EntryModel>, limit: nat, finished: bool) -> Seq<RecordModel>
    decreases s.len(),
{
    if s.len() == 0 || limit == 0 {
        Seq::empty()
    } else if s[0].record.is_finish == finished {
        seq![s[0].record] + spec_batch(s.drop_first(), (limit - 1) as nat, finished)
    } else {
        spec_batch(s.drop_first(), limit, finished)
    }
}

/// Is the record keyed by `(w, p, f)` marked finished? `false` when no
/// such record exists.
pub open spec fn spec_is_completed(
    s: Seq<EntryModel>,
    w: Seq<char>,
    p: Seq<char>,
    f: Seq<char>,
) -> bool {
    match spec_first_key(s, w, p, f) {
        Some(i) => s[i].record.is_finish,
        None => false,
    }
}

/// Marking an upload completed is idempotent: a second completion of the
/// same upload changes nothing.
pub proof fn lemma_mark_completed_idempotent(s: Seq<EntryModel>, uid: Seq<char>)
    ensures
        spec_mark_completed(spec_mark_completed(s, uid), uid) == spec_mark_completed(s, uid),
{
    lemma_first_upload_char(s, uid);
    match spec_first_upload(s, uid) {
        None => {},
        Some(i) => {
            let s1 = spec_mark_completed(s, uid);
            assert(forall|j: int| 0 <= j < i ==> s1[j] == #[trigger] s[j]);
            assert(uid_matches(s1[i], uid));
            lemma_first_upload_at(s1, uid, i);
            assert(s1[i].record.with_finished() =~= s1[i].record);
            assert(s1.update(i, EntryModel { record: s1[i].record.with_finished(), etags: s1[i].etags })
                =~= s1);
        },
    }
}

/// After any sequence of store operations, the persisted parts of an
/// upload are a gapless ascending prefix `1 ..= k` of its chunks: the
/// part with tag `etags[j]` is part `j + 1`, and `k` never exceeds the
/// record's `num_chunk`.
pub proof fn lemma_parts_form_prefix(s: Seq<EntryModel>, i: int)
    requires
        store_inv(s),
        0 <= i < s.len(),
    ensures
        s[i].etags.len() <= s[i].record.num_chunk,
        s[i].record.upload_id.len() == 0 ==> s[i].etags.len() == 0,
{
}

/// Every store operation preserves the store invariant. With the
/// positional representation of parts this is the closure half of the
/// prefix property: after any sequence of operations the acknowledged
/// parts of each upload are still exactly `1 ..= k` with
/// `k <= num_chunk`.
pub proof fn lemma_ops_preserve_inv(
    s: Seq<EntryModel>,
    w: Seq<char>,
    p: Seq<char>,
    f: Seq<char>,
    uid: Seq<char>,
)
    requires
        store_inv(s),
    ensures
        store_inv(spec_assign_upload_id(s, w, p, f, uid)),
        store_inv(spec_mark_completed(s, uid)),
        store_inv(spec_clear_parts(s, uid)),
        store_inv(spec_delete_upload(s, uid)),
{
    lemma_first_key_char(s, w, p, f);
    lemma_first_upload_char(s, uid);
    let assigned = spec_assign_upload_id(s, w, p, f, uid);
    assert forall|k: int| 0 <= k < assigned.len() implies entry_inv(#[trigger] assigned[k]) by {
        assert(entry_inv(s[k]));
    }
    assert forall|k: int, l: int|
        0 <= k < l < assigned.len() implies (#[trigger] assigned[k]).record.key() != (
    #[trigger] assigned[l]).record.key() by {
        assert(s[k].record.key() != s[l].record.key());
        assert(assigned[k].record.key() == s[k].record.key());
        assert(assigned[l].record.key() == s[l].record.key());
    }
    let marked = spec_mark_completed(s, uid);
    assert forall|k: int| 0 <= k < marked.len() implies entry_inv(#[trigger] marked[k]) by {
        assert(entry_inv(s[k]));
    }
    assert forall|k: int, l: int|
        0 <= k < l < marked.len() implies (#[trigger] marked[k]).record.key() != (
    #[trigger] marked[l]).record.key() by {
        assert(s[k].record.key() != s[l].record.key());
        assert(marked[k].record.key() == s[k].record.key());
        assert(marked[l].record.key() == s[l].record.key());
    }
    let cleared = spec_clear_parts(s, uid);
    assert forall|k: int| 0 <= k < cleared.len() implies entry_inv(#[trigger] cleared[k]) by {
        assert(entry_inv(s[k]));
    }
    assert forall|k: int, l: int|
        0 <= k < l < cleared.len() implies (#[trigger] cleared[k]).record.key() != (
    #[trigger] cleared[l]).record.key() by {
        assert(s[k].record.key() != s[l].record.key());
        assert(cleared[k].record.key() == s[k].record.key());
        assert(cleared[l].record.key() == s[l].record.key());
    }
    let deleted = spec_delete_upload(s, uid);
    match spec_first_upload(s, uid) {
        None => {},
        Some(i) => {
            s.remove_ensures(i);
            assert forall|k: int| 0 <= k < deleted.len() implies entry_inv(
                #[trigger] deleted[k],
            ) by {
                if k < i {
                    assert(entry_inv(s[k]));
                } else {
                    assert(entry_inv(s[k + 1]));
                }
            }
            assert forall|k: int, l: int|
                0 <= k < l < deleted.len() implies (#[trigger] deleted[k]).record.key() != (
            #[trigger] deleted[l]).record.key() by {
                let k0 = if k < i { k } else { k + 1 };
                let l0 = if l < i { l } else { l + 1 };
                assert(s[k0].record.key() != s[l0].record.key());
            }
        },
    }
}

/// A record's chunking is fixed at creation: no store operation changes
/// `num_chunk` (or `chunk_size`) of any record, so the part count
/// computed from the file size when the record was made holds for its
/// whole life.
pub proof fn lemma_chunking_immutable(
    s: Seq<EntryModel>,
    w: Seq<char>,
    p: Seq<char>,
    f: Seq<char>,
    uid: Seq<char>,
)
    ensures
        forall|k: int|
            0 <= k < s.len() ==> (#[trigger] spec_assign_upload_id(s, w, p, f, uid)[k]).record.num_chunk
                == s[k].record.num_chunk && spec_assign_upload_id(
                s,
                w,
                p,
                f,
                uid,
            )[k].record.chunk_size == s[k].record.chunk_size,
        forall|k: int|
            0 <= k < s.len() ==> (#[trigger] spec_mark_completed(s, uid)[k]).record.num_chunk == s[
                k
            ].record.num_chunk && spec_mark_completed(s, uid)[k].record.chunk_size == s[
                k
            ].record.chunk_size,
        forall|k: int|
            0 <= k < s.len() ==> (#[trigger] spec_clear_parts(s, uid)[k]).record.num_chunk == s[
                k
            ].record.num_chunk && spec_clear_parts(s, uid)[k].record.chunk_size == s[
                k
            ].record.chunk_size,
{
    lemma_first_key_char(s, w, p, f);
    lemma_first_upload_char(s, uid);
}

/// One stored upload: the persistent record, and the e_tag of each part
/// the remote has acknowledged, in part order.
pub struct StoredUpload {
    pub record: UploadRecord,
    pub etags: Vec<String>,
}

impl View for StoredUpload {
    type V = EntryModel;

    open spec fn view(&self) -> EntryModel {
        EntryModel { record: self.record@, etags: self.etags.deep_view() }
    }
}

/// The upload store: the durable table of upload records with their
/// acknowledged parts.
pub struct UploadStore {
    entries: Vec<StoredUpload>,
}

impl View for UploadStore {
    type V = Seq<EntryModel>;

    closed spec fn view(&self) -> Seq<EntryModel> {
        Seq::new(self.entries@.len(), |i: int| self.entries@[i]@)
    }
}

impl UploadStore {
    /// The store invariant holds of the store's model.
    pub open spec fn wf(&self) -> bool {
        store_inv(self@)
    }

    /// An empty store.
    pub fn new() -> (s: UploadStore)
        ensures
            s@ == Seq::<EntryModel>::empty(),
            s.wf(),
    {
        let s = UploadStore { entries: Vec::new() };
        proof {
            assert(s@ =~= Seq::<EntryModel>::empty());
        }
        s
    }

    /// How many records the store holds.
    pub fn num_records(&self) -> (n: usize)
        ensures
            n == self@.len(),
    {
        self.entries.len()
    }

    fn find_key_index(&self, w: &String, p: &String, f: &String) -> (r: Option<usize>)
        ensures
            match r {
                Some(i) => i < self@.len() && spec_first_key(self@, w@, p@, f@) == Some(i as int)
                    && key_matches(self@[i as int], w@, p@, f@),
                None => spec_first_key(self@, w@, p@, f@) == None::<int>,
            },
    {
        let n = self.entries.len();
        let mut i: usize = 0;
        while i < n
            invariant
                n == self@.len(),
                i <= n,
                forall|j: int| 0 <= j < i ==> !key_matches(#[trigger] self@[j], w@, p@, f@),
            decreases n - i,
        {
            let e = &self.entries[i];
            if e.record.workspace_id == *w && e.record.parent_dir == *p && e.record.file_id == *f {
                proof {
                    assert(key_matches(self@[i as int], w@, p@, f@));
                    lemma_first_key_at(self@, w@, p@, f@, i as int);
                }
                return Some(i);
            }
            proof {
                assert(!key_matches(self@[i as int], w@, p@, f@));
            }
            i = i + 1;
        }
        proof {
            lemma_first_key_none(self@, w@, p@, f@);
        }
        None
    }

    fn find_upload_index(&self, uid: &String) -> (r: Option<usize>)
        ensures
            match r {
                Some(i) => i < self@.len() && spec_first_upload(self@, uid@) == Some(i as int)
                    && uid_matches(self@[i as int], uid@),
                None => spec_first_upload(self@, uid@) == None::<int>,
            },
    {
        if uid.as_str().unicode_len() == 0 {
            proof {
                lemma_first_upload_none(self@, uid@);
            }
            return None;
        }
        let n = self.entries.len();
        let mut i: usize = 0;
        while i < n
            invariant
                n == self@.len(),
                i <= n,
                uid@.len() > 0,
                forall|j: int| 0 <= j < i ==> !uid_matches(#[trigger] self@[j], uid@),
            decreases n - i,
        {
            let e = &self.entries[i];
            if e.record.upload_id == *uid {
                proof {
                    assert(uid_matches(self@[i as int], uid@));
                    lemma_first_upload_at(self@, uid@, i as int);
                }
                return Some(i);
            }
            proof {
                assert(!uid_matches(self@[i as int], uid@));
            }
            i = i + 1;
        }
        proof {
            lemma_first_upload_none(self@, uid@);
        }
        None
    }

    /// Insert a fresh record. Fails with `Duplicate`, and changes
    /// nothing, exactly when a record with the same primary key already
    /// exists.
    pub fn insert_upload_file(&mut self, record: UploadRecord) -> (r: Result<(), StorageError>)
        requires
            old(self).wf(),
            record.wf(),
            record@.upload_id.len() == 0,
        ensures
            final(self).wf(),
            match r {
                Ok(()) => spec_first_key(
                    old(self)@,
                    record@.workspace_id,
                    record@.parent_dir,
                    record@.file_id,
                ) is None && final(self)@ == old(self)@.push(
                    EntryModel { record: record@, etags: Seq::empty() },
                ),
                Err(e) => e is Duplicate && spec_first_key(
                    old(self)@,
                    record@.workspace_id,
                    record@.parent_dir,
                    record@.file_id,
                ) is Some && final(self)@ == old(self)@,
            },
    {
        match self.find_key_index(&record.workspace_id, &record.parent_dir, &record.file_id) {
            Some(_) => Err(StorageError::Duplicate),
            None => {
                proof {
                    lemma_first_key_char(self@, record@.workspace_id, record@.parent_dir, record@.file_id);
                }
                let ghost prev = self@;
                let entry = StoredUpload { record, etags: Vec::new() };
                let ghost em = entry@;
                self.entries.push(entry);
                proof {
                    assert(em =~~= EntryModel { record: em.record, etags: Seq::empty() });
                    assert(self@ =~~= prev.push(em));
                    assert forall|i: int, j: int|
                        0 <= i < j < self@.len() implies (#[trigger] self@[i]).record.key() != (
                    #[trigger] self@[j]).record.key() by {
                        if j < self@.len() - 1 {
                            assert(prev[i].record.key() != prev[j].record.key());
                        } else {
                            assert(!key_matches(prev[i], em.record.workspace_id, em.record.parent_dir, em.record.file_id));
                        }
                    }
                }
                Ok(())
            },
        }
    }

    /// Look a record up by its primary key.
    pub fn select_upload_file(&self, w: &String, p: &String, f: &String) -> (r: Option<
        UploadRecord,
    >)
        ensures
            match r {
                Some(rec) => spec_first_key(self@, w@, p@, f@) is Some && rec@ == self@[
                    spec_first_key(self@, w@, p@, f@).unwrap()
                ].record,
                None => spec_first_key(self@, w@, p@, f@) is None,
            },
    {
        match self.find_key_index(w, p, f) {
            Some(i) => Some(self.entries[i].record.clone()),
            None => None,
        }
    }

    /// Up to `limit` records with `is_finish == finished`, in store
    /// order: the startup scan that re-enqueues unfinished work.
    pub fn batch_select_upload_file(&self, limit: usize, finished: bool) -> (r: Vec<UploadRecord>)
        ensures
            r.deep_view() == spec_batch(self@, limit as nat, finished),
    {
        let n = self.entries.len();
        let mut out: Vec<UploadRecord> = Vec::new();
        let mut i: usize = 0;
        proof {
            assert(self@.skip(0) =~= self@);
            assert(out.deep_view() =~= Seq::<RecordModel>::empty());
            assert(Seq::<RecordModel>::empty() + spec_batch(self@, limit as nat, finished)
                =~= spec_batch(self@, limit as nat, finished));
        }
        while i < n && out.len() < limit
            invariant
                n == self@.len(),
                i <= n,
                out@.len() <= limit,
                out@.len() == out.deep_view().len(),
                spec_batch(self@, limit as nat, finished) == out.deep_view() + spec_batch(
                    self@.skip(i as int),
                    (limit - out@.len()) as nat,
                    finished,
                ),
            decreases n - i,
        {
            let ghost rest = self@.skip(i as int);
            let ghost lim = (limit - out@.len()) as nat;
            proof {
                assert(rest.len() == n - i);
                assert(rest[0] == self@[i as int]);
                assert(rest.drop_first() =~= self@.skip(i as int + 1));
            }
            if self.entries[i].record.is_finish == finished {
                let ghost prev_out = out.deep_view();
                out.push(self.entries[i].record.clone());
                proof {
                    assert(spec_batch(rest, lim, finished) == seq![rest[0].record] + spec_batch(
                        rest.drop_first(),
                        (lim - 1) as nat,
                        finished,
                    ));
                    assert(out.deep_view() =~= prev_out.push(self@[i as int].record));
                    assert(prev_out + (seq![rest[0].record] + spec_batch(
                        rest.drop_first(),
                        (lim - 1) as nat,
                        finished,
                    )) =~= out.deep_view() + spec_batch(
                        rest.drop_first(),
                        (lim - 1) as nat,
                        finished,
                    ));
                    assert(spec_batch(rest.drop_first(), (lim - 1) as nat, finished) == spec_batch(
                        self@.skip(i as int + 1),
                        (limit - out@.len()) as nat,
                        finished,
                    ));
                }
            } else {
                proof {
                    assert(spec_batch(rest, lim, finished) == spec_batch(
                        rest.drop_first(),
                        lim,
                        finished,
                    ));
                    assert(spec_batch(rest.drop_first(), lim, finished) == spec_batch(
                        self@.skip(i as int + 1),
                        lim,
                        finished,
                    ));
                }
            }
            i = i + 1;
        }
        proof {
            if i == n {
                assert(self@.skip(i as int).len() == 0);
            }
            assert(spec_batch(self@.skip(i as int), (limit - out@.len()) as nat, finished)
                == Seq::<RecordModel>::empty());
            assert(out.deep_view() + Seq::<RecordModel>::empty() =~= out.deep_view());
        }
        out
    }

    /// Overwrite the remote session id of the record keyed by
    /// `(w, p, f)`; a missing record is a silent no-op. Writing the
    /// empty id marks the upload "not initiated" and wipes its parts.
    pub fn update_upload_file_upload_id(
        &mut self,
        w: &String,
        p: &String,
        f: &String,
        upload_id: &String,
    )
        requires
            old(self).wf(),
        ensures
            final(self).wf(),
            final(self)@ == spec_assign_upload_id(old(self)@, w@, p@, f@, upload_id@),
    {
        match self.find_key_index(w, p, f) {
            None => {},
            Some(i) => {
                let ghost prev = self@;
                self.entries[i].record.upload_id = upload_id.clone();
                if upload_id.as_str().unicode_len() == 0 {
                    self.entries[i].etags.clear();
                }
                proof {
                    assert(self@ =~~= spec_assign_upload_id(prev, w@, p@, f@, upload_id@));
                    assert forall|k: int| 0 <= k < self@.len() implies entry_inv(
                        #[trigger] self@[k],
                    ) by {
                        assert(entry_inv(prev[k]));
                    }
                    assert forall|k: int, l: int|
                        0 <= k < l < self@.len() implies (#[trigger] self@[k]).record.key() != (
                    #[trigger] self@[l]).record.key() by {
                        assert(prev[k].record.key() != prev[l].record.key());
                        assert(self@[k].record.key() == prev[k].record.key());
                        assert(self@[l].record.key() == prev[l].record.key());
                    }
                }
            },
        }
    }

    /// Mark the upload with session id `uid` finished. Idempotent: a
    /// record that is already finished, or a `uid` that matches no
    /// record, leaves the store unchanged.
    pub fn update_upload_file_completed(&mut self, uid: &String)
        requires
            old(self).wf(),
        ensures
            final(self).wf(),
            final(self)@ == spec_mark_completed(old(self)@, uid@),
    {
        match self.find_upload_index(uid) {
            None => {},
            Some(i) => {
                let ghost prev = self@;
                self.entries[i].record.is_finish = true;
                proof {
                    assert(self@ =~~= spec_mark_completed(prev, uid@));
                    assert forall|k: int| 0 <= k < self@.len() implies entry_inv(
                        #[trigger] self@[k],
                    ) by {
                        assert(entry_inv(prev[k]));
                    }
                    assert forall|k: int, l: int|
                        0 <= k < l < self@.len() implies (#[trigger] self@[k]).record.key() != (
                    #[trigger] self@[l]).record.key() by {
                        assert(prev[k].record.key() != prev[l].record.key());
                        assert(self@[k].record.key() == prev[k].record.key());
                        assert(self@[l].record.key() == prev[l].record.key());
                    }
                }
            },
        }
    }

    /// Is the record keyed by `(w, p, f)` marked finished?
    pub fn is_upload_completed(&self, w: &String, p: &String, f: &String) -> (r: bool)
        ensures
            r == spec_is_completed(self@, w@, p@, f@),
    {
        match self.find_key_index(w, p, f) {
            Some(i) => self.entries[i].record.is_finish,
            None => false,
        }
    }

    /// Delete the record of upload `uid`; its parts go with it. A `uid`
    /// that matches no record is a silent no-op.
    pub fn delete_upload_file(&mut self, uid: &String)
        requires
            old(self).wf(),
        ensures
            final(self).wf(),
            final(self)@ == spec_delete_upload(old(self)@, uid@),
    {
        match self.find_upload_index(uid) {
            None => {},
            Some(i) => {
                let ghost prev = self@;
                self.entries.remove(i);
                proof {
                    prev.remove_ensures(i as int);
                    assert(self@ =~~= prev.remove(i as int));
                    assert forall|k: int| 0 <= k < self@.len() implies entry_inv(
                        #[trigger] self@[k],
                    ) by {
                        if k < i {
                            assert(entry_inv(prev[k]));
                        } else {
                            assert(entry_inv(prev[k + 1]));
                        }
                    }
                    assert forall|k: int, l: int|
                        0 <= k < l < self@.len() implies (#[trigger] self@[k]).record.key() != (
                    #[trigger] self@[l]).record.key() by {
                        let k0 = if k < i { k } else { k + 1 };
                        let l0 = if l < i { l } else { l + 1 };
                        assert(prev[k0].record.key() != prev[l0].record.key());
                    }
                }
            },
        }
    }

    /// Persist one acknowledged part. The part must be the next one of
    /// an existing, initiated upload: `RecordNotFound` when no record
    /// carries `uid`, `Corrupt` when the part number is not the next in
    /// line or exceeds the record's chunk count.
    pub fn insert_upload_part(&mut self, uid: &String, part_num: u64, e_tag: String) -> (r: Result<
        (),
        StorageError,
    >)
        requires
            old(self).wf(),
        ensures
            final(self).wf(),
            match spec_first_upload(old(self)@, uid@) {
                None => (r matches Err(StorageError::RecordNotFound)) && final(self)@ == old(
                    self,
                )@,
                Some(i) => ({
                    let e = old(self)@[i];
                    if part_num == e.etags.len() + 1 && part_num <= e.record.num_chunk {
                        (r is Ok) && final(self)@ == old(self)@.update(
                            i,
                            EntryModel { record: e.record, etags: e.etags.push(e_tag@) },
                        )
                    } else {
                        (r matches Err(StorageError::Corrupt { .. })) && final(self)@ == old(
                            self,
                        )@
                    }
                }),
            },
    {
        match self.find_upload_index(uid) {
            None => Err(StorageError::RecordNotFound),
            Some(i) => {
                let cur = self.entries[i].etags.len();
                let num_chunk = self.entries[i].record.num_chunk;
                if part_num >= 1 && part_num <= num_chunk && (cur as u64) == part_num - 1 {
                    let ghost prev = self@;
                    self.entries[i].etags.push(e_tag);
                    proof {
                        assert(self@ =~~= prev.update(
                            i as int,
                            EntryModel {
                                record: prev[i as int].record,
                                etags: prev[i as int].etags.push(e_tag@),
                            },
                        ));
                        assert forall|k: int| 0 <= k < self@.len() implies entry_inv(
                            #[trigger] self@[k],
                        ) by {
                            assert(entry_inv(prev[k]));
                        }
                        assert forall|k: int, l: int|
                            0 <= k < l < self@.len() implies (#[trigger] self@[k]).record.key()
                            != (#[trigger] self@[l]).record.key() by {
                            assert(prev[k].record.key() != prev[l].record.key());
                            assert(self@[k].record.key() == prev[k].record.key());
                            assert(self@[l].record.key() == prev[l].record.key());
                        }
                    }
                    Ok(())
                } else {
                    Err(
                        StorageError::Corrupt {
                            msg: String::from_str("part number out of order"),
                        },
                    )
                }
            },
        }
    }

    /// The acknowledged parts of upload `uid`, as `(part_num, e_tag)`
    /// pairs sorted ascending by part number: exactly `1 ..= k` with
    /// `k` at most the record's `num_chunk`. Empty when no record
    /// carries `uid`.
    pub fn select_upload_parts(&self, uid: &String) -> (r: Vec<(u64, String)>)
        requires
            self.wf(),
        ensures
            match spec_first_upload(self@, uid@) {
                Some(i) => r@.len() == self@[i].etags.len() && r@.len()
                    <= self@[i].record.num_chunk && (forall|k: int|
                    0 <= k < r@.len() ==> (#[trigger] r@[k]).0 == k + 1 && r@[k].1@ == self@[
                        i
                    ].etags[k]),
                None => r@.len() == 0,
            },
    {
        match self.find_upload_index(uid) {
            None => Vec::new(),
            Some(i) => {
                let etags = &self.entries[i].etags;
                let n = etags.len();
                let mut out: Vec<(u64, String)> = Vec::new();
                let mut k: usize = 0;
                while k < n
                    invariant
                        n == etags@.len(),
                        n == self@[i as int].etags.len(),
                        forall|j: int| 0 <= j < n ==> etags@[j]@ == self@[i as int].etags[j],
                        n <= self@[i as int].record.num_chunk,
                        self@[i as int].record.num_chunk <= u64::MAX,
                        k <= n,
                        out@.len() == k,
                        forall|j: int|
                            0 <= j < k ==> (#[trigger] out@[j]).0 == j + 1 && out@[j].1@ == self@[
                                i as int
                            ].etags[j],
                    decreases n - k,
                {
                    out.push(((k as u64) + 1, etags[k].clone()));
                    k = k + 1;
                }
                out
            },
        }
    }

    /// Wipe the checkpointed parts of upload `uid`, so that the next
    /// attempt re-uploads from part 1. A `uid` that matches no record
    /// is a silent no-op.
    pub fn delete_all_upload_parts(&mut self, uid: &String)
        requires
            old(self).wf(),
        ensures
            final(self).wf(),
            final(self)@ == spec_clear_parts(old(self)@, uid@),
    {
        match self.find_upload_index(uid) {
            None => {},
            Some(i) => {
                let ghost prev = self@;
                self.entries[i].etags.clear();
                proof {
                    assert(self@ =~~= spec_clear_parts(prev, uid@));
                    assert forall|k: int| 0 <= k < self@.len() implies entry_inv(
                        #[trigger] self@[k],
                    ) by {
                        assert(entry_inv(prev[k]));
                    }
                    assert forall|k: int, l: int|
                        0 <= k < l < self@.len() implies (#[trigger] self@[k]).record.key() != (
                    #[trigger] self@[l]).record.key() by {
                        assert(prev[k].record.key() != prev[l].record.key());
                        assert(self@[k].record.key() == prev[k].record.key());
                        assert(self@[l].record.key() == prev[l].record.key());
                    }
                }
            },
        }
    }
}

} // verus!
