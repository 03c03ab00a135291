//! The cooperative scheduler's decisions: the three gates that allow or
//! forbid work, the per-turn choice between waiting and running a task,
//! and the next step of the multipart protocol for a given record.

use vstd::prelude::*;
use crate::queue::QueueModel;
use crate::queue::Signal;
use crate::queue::TaskQueue;
use crate::queue::UploadTask;
use crate::record::RecordModel;
use crate::record::UploadRecord;

verus! {

/// The three orthogonal gates the scheduler consults before any work.
#[derive(Clone, Copy, Debug, PartialEq, Eq, Structural)]
pub struct Gates {
    /// Set by the host on connectivity events.
    pub network_reachable: bool,
    /// Flipped on paywall state changes.
    pub storage_write_enabled: bool,
    /// Latched on a quota-exceeded error from the remote; cleared only
    /// when the host observes a quota refresh.
    pub quota_exceeded: bool,
}

impl Gates {
    /// Work may proceed only with the network reachable, storage writes
    /// enabled and the quota not exceeded.
    pub open spec fn spec_can_proceed(self) -> bool {
        self.network_reachable && self.storage_write_enabled && !self.quota_exceeded
    }

    /// The gates of a fresh engine: everything permitted.
    pub fn new() -> (g: Gates)
        ensures
            g.network_reachable,
            g.storage_write_enabled,
            !g.quota_exceeded,
    {
        Gates { network_reachable: true, storage_write_enabled: true, quota_exceeded: false }
    }

    /// May the scheduler run a task right now?
    pub fn can_proceed(&self) -> (b: bool)
        ensures
            b == self.spec_can_proceed(),
    {
        self.network_reachable && self.storage_write_enabled && !self.quota_exceeded
    }
}

/// Pausing flips only the network flag off; resuming flips it back on.
/// The other gates survive the round trip, so resuming restores exactly
/// the state the engine was paused in, and a toggle on reachable gates
/// is the identity.
pub proof fn lemma_pause_resume_round_trip(g: Gates)
    ensures
        ({
            let paused = Gates { network_reachable: false, ..g };
            let resumed = Gates { network_reachable: true, ..paused };
            &&& !paused.spec_can_proceed()
            &&& resumed == (Gates { network_reachable: true, ..g })
            &&& g.network_reachable ==> resumed == g
        }),
{
}

/// One turn of the scheduler loop: while the gates forbid progress the
/// queue's signal is parked at `Stop` and no task is taken; otherwise
/// the next task is dequeued, `Immediate` tasks first, FIFO within a
/// class.
pub fn uploader_turn(gates: &Gates, queue: &mut TaskQueue) -> (r: Option<UploadTask>)
    requires
        old(queue).wf(),
    ensures
        final(queue).wf(),
        !gates.spec_can_proceed() ==> r is None && final(queue)@ == (QueueModel {
            signal: Signal::Stop,
            ..old(queue)@
        }),
        gates.spec_can_proceed() ==> final(queue)@.signal == old(queue)@.signal && (match r {
            Some(t) => if old(queue)@.immediate.len() > 0 {
                &&& t@ == old(queue)@.immediate[0]
                &&& final(queue)@.immediate == old(queue)@.immediate.drop_first()
                &&& final(queue)@.background == old(queue)@.background
            } else {
                &&& old(queue)@.background.len() > 0
                &&& t@ == old(queue)@.background[0]
                &&& final(queue)@.immediate == old(queue)@.immediate
                &&& final(queue)@.background == old(queue)@.background.drop_first()
            },
            None => old(queue)@.immediate.len() == 0 && old(queue)@.background.len() == 0
                && final(queue)@ == old(queue)@,
        }),
{
    if !gates.can_proceed() {
        queue.set_signal(Signal::Stop);
        None
    } else {
        queue.dequeue()
    }
}

/// The next step of the multipart protocol for a record of which
/// `parts` parts are already persisted.
#[derive(Clone, Copy, Debug, PartialEq, Eq, Structural)]
pub enum ProtocolStep {
    /// The remote session is not initiated yet: ask the remote for an
    /// `upload_id` first.
    Initiate,
    /// Upload this 1-based part next.
    UploadPart { part_num: u64 },
    /// Every part is acknowledged: ask the remote to assemble.
    Complete,
    /// The record is already finished: nothing to do.
    Done,
}

/// What the protocol does next, decided by the persisted record and the
/// persisted part count alone: an uninitiated upload is initiated, an
/// upload with parts missing continues at the part after the last
/// persisted one, a fully uploaded file is completed.
pub open spec fn spec_next_step(r: RecordModel, parts: nat) -> ProtocolStep {
    if r.is_finish {
        ProtocolStep::Done
    } else if r.upload_id.len() == 0 {
        ProtocolStep::Initiate
    } else if parts < r.num_chunk {
        ProtocolStep::UploadPart { part_num: (parts + 1) as u64 }
    } else {
        ProtocolStep::Complete
    }
}

/// Decide the next protocol step for `record` with `parts_len` parts
/// persisted.
pub fn next_step(record: &UploadRecord, parts_len: u64) -> (s: ProtocolStep)
    requires
        parts_len <= record@.num_chunk,
    ensures
        s == spec_next_step(record@, parts_len as nat),
{
    if record.is_finish {
        ProtocolStep::Done
    } else if record.upload_id.as_str().unicode_len() == 0 {
        ProtocolStep::Initiate
    } else if parts_len < record.num_chunk {
        ProtocolStep::UploadPart { part_num: parts_len + 1 }
    } else {
        ProtocolStep::Complete
    }
}

/// Pause and resume preserve the upload's position: the next step after
/// a resume is decided by the persisted record and part count alone, so
/// an upload paused after `parts` acknowledged parts continues with part
/// `parts + 1`.
pub proof fn lemma_resume_continues_from_checkpoint(r: RecordModel, parts: nat)
    requires
        !r.is_finish,
        r.upload_id.len() > 0,
        parts < r.num_chunk,
    ensures
        spec_next_step(r, parts) == (ProtocolStep::UploadPart { part_num: (parts + 1) as u64 }),
{
}

} // verus!
