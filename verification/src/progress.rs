//! Progress reporting: per-part progress values, progress events, the
//! bounded broadcast buffer, and the per-file map of last-published
//! states.
//!
//! Progress is measured in permille (thousandths). Per-part progress is
//! capped at 900: the last tenth is reserved for the completion step, so
//! an observer never sees completion before the remote confirms assembly.

use vstd::prelude::*;

verus! {

/// The progress value of a finished upload, in permille.
pub const PROGRESS_DONE: u32 = 1000;

/// The cap on per-part progress, in permille.
pub const PROGRESS_PART_CAP: u32 = 900;

/// How many events the broadcast buffer holds before it drops the
/// oldest.
pub const BROADCAST_CAPACITY: usize = 2000;

/// The progress published after part `part` of `num_chunk` is
/// acknowledged: `part / num_chunk` in permille, capped at 900.
pub open spec fn spec_part_progress(part: nat, num_chunk: nat) -> nat
    recommends
        num_chunk > 0,
{
    let raw = part * 1000 / num_chunk;
    if raw >= 900 {
        900
    } else {
        raw
    }
}

/// Per-part progress: the fraction of acknowledged parts in permille,
/// capped at 900.
pub fn part_progress(part: u64, num_chunk: u64) -> (p: u32)
    requires
        num_chunk >= 1,
        part <= num_chunk,
    ensures
        p == spec_part_progress(part as nat, num_chunk as nat),
        p <= PROGRESS_PART_CAP,
{
    let raw = (part as u128) * 1000 / (num_chunk as u128);
    proof {
        assert((part as nat) * 1000 / (num_chunk as nat) <= 1000) by (nonlinear_arith)
            requires
                num_chunk >= 1,
                part <= num_chunk,
        ;
    }
    if raw >= 900 {
        PROGRESS_PART_CAP
    } else {
        raw as u32
    }
}

/// Successful progress values are non-decreasing in the part number:
/// later parts never report less.
pub proof fn lemma_progress_monotone(p1: nat, p2: nat, num_chunk: nat)
    requires
        num_chunk > 0,
        p1 <= p2,
    ensures
        spec_part_progress(p1, num_chunk) <= spec_part_progress(p2, num_chunk),
{
    assert(p1 * 1000 / num_chunk <= p2 * 1000 / num_chunk) by (nonlinear_arith)
        requires
            num_chunk > 0,
            p1 <= p2,
    ;
}

/// The last part reports exactly the cap: an upload that is about to
/// complete has published 900, and never more, before the completion
/// event raises it to 1000.
pub proof fn lemma_last_part_hits_cap(num_chunk: nat)
    requires
        num_chunk > 0,
    ensures
        spec_part_progress(num_chunk, num_chunk) == 900,
{
    assert(num_chunk * 1000 / num_chunk == 1000) by (nonlinear_arith)
        requires
            num_chunk > 0,
    ;
}

/// An observer never sees completion from a part upload: per-part
/// progress stays at or below the cap, strictly under 1000, until the
/// remote has confirmed assembly.
pub proof fn lemma_parts_never_report_completion(part: nat, num_chunk: nat)
    ensures
        spec_part_progress(part, num_chunk) <= PROGRESS_PART_CAP,
        spec_part_progress(part, num_chunk) < PROGRESS_DONE,
{
}

/// The state of one file's upload, as subscribers see it.
#[derive(Clone, Debug)]
pub enum FileUploadState {
    /// Parts are being uploaded; `progress` is in permille and at most
    /// 900.
    Uploading { progress: u32 },
    /// The remote confirmed assembly.
    Finished,
    /// The upload failed with a terminal error.
    Failed { msg: String },
}

/// The mathematical model of a file state.
#[verifier::ext_equal]
pub enum StateModel {
    Uploading { progress: u32 },
    Finished,
    Failed { msg: Seq<char> },
}

impl View for FileUploadState {
    type V = StateModel;

    open spec fn view(&self) -> StateModel {
        match self {
            FileUploadState::Uploading { progress } => StateModel::Uploading {
                progress: *progress,
            },
            FileUploadState::Finished => StateModel::Finished,
            FileUploadState::Failed { msg } => StateModel::Failed { msg: msg@ },
        }
    }
}

/// One progress event, as published to the broadcast stream: a progress
/// value in permille, or a terminal error message.
pub struct ProgressEvent {
    pub url: String,
    pub file_id: String,
    pub progress: u32,
    pub error: Option<String>,
}

/// The mathematical model of a progress event.
#[verifier::ext_equal]
pub struct EventModel {
    pub url: Seq<char>,
    pub file_id: Seq<char>,
    pub progress: u32,
    pub error: Option<Seq<char>>,
}

impl View for ProgressEvent {
    type V = EventModel;

    open spec fn view(&self) -> EventModel {
        EventModel {
            url: self.url@,
            file_id: self.file_id@,
            progress: self.progress,
            error: match &self.error {
                Some(m) => Some(m@),
                None => None,
            },
        }
    }
}

/// A plain progress event.
pub fn new_progress_event(url: String, file_id: String, progress: u32) -> (e: ProgressEvent)
    ensures
        e@ == (EventModel { url: url@, file_id: file_id@, progress, error: None }),
{
    ProgressEvent { url, file_id, progress, error: None }
}

/// A terminal error event.
pub fn new_error_event(url: String, file_id: String, msg: String) -> (e: ProgressEvent)
    ensures
        e@ == (EventModel { url: url@, file_id: file_id@, progress: 0, error: Some(msg@) }),
{
    ProgressEvent { url, file_id, progress: 0, error: Some(msg) }
}

/// The file state an event translates to: an error message makes
/// `Failed`, a progress value of 1000 or more makes `Finished`, and any
/// other value makes `Uploading`.
pub open spec fn spec_event_state(e: EventModel) -> StateModel {
    match e.error {
        Some(m) => StateModel::Failed { msg: m },
        None => if e.progress >= PROGRESS_DONE {
            StateModel::Finished
        } else {
            StateModel::Uploading { progress: e.progress }
        },
    }
}

/// Translate an event into the state subscribers of its file see.
pub fn event_state(e: &ProgressEvent) -> (s: FileUploadState)
    ensures
        s@ == spec_event_state(e@),
{
    match &e.error {
        Some(m) => FileUploadState::Failed { msg: m.clone() },
        None => {
            if e.progress >= PROGRESS_DONE {
                FileUploadState::Finished
            } else {
                FileUploadState::Uploading { progress: e.progress }
            }
        },
    }
}

/// The per-file map of last-published states. It wraps a concurrent map
/// so the host's tasks may share it across threads; the engine reads and
/// writes it only through the trusted wrappers below.
#[verifier::external_body]
pub struct NotifierMap {
    inner: dashmap::DashMap<String, FileUploadState>,
}

/// What the map holds: the last-published state per file id.
pub uninterp spec fn notifier_entries(m: NotifierMap) -> Map<Seq<char>, StateModel>;

/// The state map with no entries.
pub open spec fn no_states() -> Map<Seq<char>, StateModel> {
    Map::empty()
}

impl NotifierMap {
    /// Relies on `dashmap::DashMap::new`: a fresh map is empty.
    #[verifier::external_body]
    pub fn new() -> (m: NotifierMap)
        ensures
            notifier_entries(m) == no_states(),
    {
        NotifierMap { inner: dashmap::DashMap::new() }
    }

    /// Relies on `dashmap::DashMap::insert`: afterwards the map holds
    /// `state` under `file_id` and every other entry is untouched.
    #[verifier::external_body]
    pub fn set(&mut self, file_id: &String, state: FileUploadState)
        ensures
            notifier_entries(*final(self)) == notifier_entries(*old(self)).insert(
                file_id@,
                state@,
            ),
    {
        self.inner.insert(file_id.clone(), state);
    }

    /// Relies on `dashmap::DashMap::get`: the state last stored under
    /// `file_id`, if any.
    #[verifier::external_body]
    pub fn get(&self, file_id: &String) -> (r: Option<FileUploadState>)
        ensures
            match r {
                Some(st) => notifier_entries(*self).contains_key(file_id@) && notifier_entries(
                    *self,
                )[file_id@] == st@,
                None => !notifier_entries(*self).contains_key(file_id@),
            },
    {
        self.inner.get(file_id).map(|r| r.value().clone())
    }

}

/// The mathematical model of the progress hub.
#[verifier::ext_equal]
pub struct HubModel {
    /// The events in the broadcast buffer, oldest first.
    pub events: Seq<EventModel>,
    /// The last-published state per file id.
    pub states: Map<Seq<char>, StateModel>,
}

/// The progress fan-out: a bounded broadcast buffer of every event, with
/// oldest-dropped overflow, and the per-file map of last states that
/// late subscribers are caught up from.
pub struct ProgressHub {
    events: Vec<ProgressEvent>,
    states: NotifierMap,
}

impl View for ProgressHub {
    type V = HubModel;

    closed spec fn view(&self) -> HubModel {
        HubModel { events: self.events.deep_view(), states: notifier_entries(self.states) }
    }
}

impl DeepView for ProgressEvent {
    type V = EventModel;

    open spec fn deep_view(&self) -> EventModel {
        self@
    }
}

impl ProgressHub {
    /// The buffer never exceeds its capacity.
    pub open spec fn wf(&self) -> bool {
        self@.events.len() <= BROADCAST_CAPACITY
    }

    /// An empty hub.
    pub fn new() -> (h: ProgressHub)
        ensures
            h@.events == Seq::<EventModel>::empty(),
            h@.states == no_states(),
            h.wf(),
    {
        let h = ProgressHub { events: Vec::new(), states: NotifierMap::new() };
        proof {
            assert(h@.events =~= Seq::<EventModel>::empty());
        }
        h
    }

    /// Publish one event: append it to the broadcast buffer, dropping
    /// the oldest event when the buffer is full, and record the state it
    /// translates to as its file's last-published state.
    pub fn publish(&mut self, e: ProgressEvent)
        requires
            old(self).wf(),
        ensures
            final(self).wf(),
            final(self)@.events == if old(self)@.events.len() < BROADCAST_CAPACITY {
                old(self)@.events.push(e@)
            } else {
                old(self)@.events.drop_first().push(e@)
            },
            final(self)@.states == old(self)@.states.insert(e@.file_id, spec_event_state(e@)),
    {
        let ghost em = e@;
        let state = event_state(&e);
        self.states.set(&e.file_id, state);
        if self.events.len() >= BROADCAST_CAPACITY {
            let ghost before = self.events.deep_view();
            self.events.remove(0);
            proof {
                assert(self.events.deep_view() =~= before.drop_first());
            }
        }
        let ghost mid = self.events.deep_view();
        self.events.push(e);
        proof {
            assert(self.events.deep_view() =~= mid.push(em));
        }
    }

    /// The last-published state of a file, if any was published.
    pub fn snapshot(&self, file_id: &String) -> (r: Option<FileUploadState>)
        ensures
            match r {
                Some(st) => self@.states.contains_key(file_id@) && self@.states[file_id@] == st@,
                None => !self@.states.contains_key(file_id@),
            },
    {
        self.states.get(file_id)
    }

    /// How many events the broadcast buffer holds.
    pub fn event_count(&self) -> (n: usize)
        ensures
            n == self@.events.len(),
    {
        self.events.len()
    }
}

} // verus!
