//! The adapter that turns a callback-driven kernel buffer into a
//! cooperatively-polled, non-blocking stream.
//!
//! The kernel buffer pushes records through a synchronous callback while
//! it is polled with a zero timeout; the adapter decodes each record and
//! queues the event (`on_sample`).  The pull side (`poll_next`) then
//! delivers queued events one at a time, suspends with exactly one
//! deferred wake when the queue is empty, and ends the stream for good
//! when the buffer poll itself fails.
//!
//! Events come out in the order the buffer's callback handed them in.
//! That is per-cpu order, not global chronological order: the kernel
//! does not interleave records from different cpus by time.

use vstd::prelude::*;
use crate::cfg::Cfg;
use crate::event::{decode, spec_raw_lat_us, spec_raw_pid, spec_raw_task, Event, RAW_EVENT_BYTES};

verus! {

/// How long a suspended stream waits before its deferred wake fires,
/// in milliseconds.  The fixed re-poll interval bounds worst-case
/// delivery latency while avoiding a tight spin loop; the polling
/// tools' streams suspend for the same interval.
pub const WAKE_DELAY_MS: u64 = 100;

/// The result of one poll of a tool's stream: an event, a suspension
/// until a deferred wake fires, or completion.
pub enum Polled<Value> {
    Ready(Event<Value>),
    Pending,
    Ended,
}

/// The pollable stream fed by one attached kernel program's buffer.
///
/// The ghost counters record the adapter's history: how many samples the
/// buffer's callback handed in, how many events were delivered `Ready`,
/// and how many deferred wakes were scheduled.
pub struct KernelBufStream {
    /// The effective configuration written into the kernel program when
    /// the owning tool was constructed.
    pub cfg: Cfg,
    /// Decoded events drained from the kernel buffer, not yet delivered.
    pub queue: Vec<Event<u64>>,
    /// Whether a buffer poll failed; an ended stream stays ended.
    pub ended: bool,
    /// How many samples the buffer's callback has handed in.
    pub enqueued: Ghost<nat>,
    /// How many events were handed out as `Ready`.
    pub delivered: Ghost<nat>,
    /// How many deferred wakes were scheduled.
    pub wakes: Ghost<nat>,
}

impl KernelBufStream {
    /// Sample accounting: every sample the buffer handed in is either
    /// still queued or was delivered, and was delivered at most once.
    pub open spec fn wf(&self) -> bool {
        self.delivered@ + self.queue@.len() == self.enqueued@
    }

    /// The fresh adapter for a newly attached program: nothing queued,
    /// nothing delivered, nothing scheduled.
    pub open spec fn fresh(&self, cfg: Cfg) -> bool {
        &&& self.cfg == cfg
        &&& self.queue@.len() == 0
        &&& !self.ended
        &&& self.enqueued@ == 0
        &&& self.delivered@ == 0
        &&& self.wakes@ == 0
    }

    pub fn new(cfg: Cfg) -> (s: Self)
        ensures
            s.fresh(cfg),
            s.wf(),
    {
        KernelBufStream {
            cfg,
            queue: Vec::new(),
            ended: false,
            enqueued: Ghost(0),
            delivered: Ghost(0),
            wakes: Ghost(0),
        }
    }

    /// What one callback invocation does: the raw record is decoded with
    /// the caller's clock reading and appended to the queue; nothing
    /// else moves.
    pub open spec fn sample_rel(pre: Self, post: Self, data: Seq<u8>, now_us: u64) -> bool {
        &&& post.cfg == pre.cfg
        &&& post.ended == pre.ended
        &&& post.queue@.len() == pre.queue@.len() + 1
        &&& post.queue@.subrange(0, pre.queue@.len() as int) == pre.queue@
        &&& post.queue@.last().time_us == now_us
        &&& post.queue@.last().task@ == spec_raw_task(data)
        &&& post.queue@.last().pid == spec_raw_pid(data)
        &&& post.queue@.last().value == spec_raw_lat_us(data)
        &&& post.enqueued@ == pre.enqueued@ + 1
        &&& post.delivered@ == pre.delivered@
        &&& post.wakes@ == pre.wakes@
    }

    /// The sample callback path: decode one raw record and enqueue the
    /// event.  Called once per record while the kernel buffer is polled.
    pub fn on_sample(&mut self, data: &[u8], now_us: u64)
        requires
            old(self).wf(),
            data@.len() >= RAW_EVENT_BYTES,
        ensures
            final(self).wf(),
            Self::sample_rel(*old(self), *final(self), data@, now_us),
    {
        let ev = decode(data, now_us);
        self.queue.push(ev);
        proof {
            self.enqueued@ = self.enqueued@ + 1;
            assert(self.queue@.subrange(0, old(self).queue@.len() as int) =~= old(self).queue@);
        }
    }

    /// What one poll of the pull side does.  An ended stream stays ended.
    /// A failed buffer poll ends the stream with nothing delivered.
    /// Otherwise the head of the queue is delivered exactly once, or,
    /// with an empty queue, the stream suspends and schedules exactly
    /// one deferred wake.
    pub open spec fn poll_rel(pre: Self, post: Self, poll_ok: bool, r: Polled<u64>) -> bool {
        &&& post.cfg == pre.cfg
        &&& (pre.ended ==> {
            &&& r is Ended
            &&& post == pre
        })
        &&& (!pre.ended && !poll_ok ==> {
            &&& r is Ended
            &&& post == Self { ended: true, ..pre }
        })
        &&& (!pre.ended && poll_ok && pre.queue@.len() > 0 ==> {
            &&& (r matches Polled::Ready(ev) && ev == pre.queue@[0])
            &&& post.queue@ == pre.queue@.subrange(1, pre.queue@.len() as int)
            &&& !post.ended
            &&& post.enqueued@ == pre.enqueued@
            &&& post.delivered@ == pre.delivered@ + 1
            &&& post.wakes@ == pre.wakes@
        })
        &&& (!pre.ended && poll_ok && pre.queue@.len() == 0 ==> {
            &&& r is Pending
            &&& post.queue@ == pre.queue@
            &&& !post.ended
            &&& post.enqueued@ == pre.enqueued@
            &&& post.delivered@ == pre.delivered@
            &&& post.wakes@ == pre.wakes@ + 1
        })
    }

    /// One poll of the stream.  The caller has just polled the kernel
    /// buffer with a zero timeout (feeding `on_sample` once per record
    /// that was available); `poll_ok` says whether that poll succeeded.
    pub fn poll_next(&mut self, poll_ok: bool) -> (r: Polled<u64>)
        requires
            old(self).wf(),
        ensures
            final(self).wf(),
            Self::poll_rel(*old(self), *final(self), poll_ok, r),
    {
        if self.ended {
            Polled::Ended
        } else if !poll_ok {
            self.ended = true;
            Polled::Ended
        } else if self.queue.len() > 0 {
            let ev = self.queue.remove(0);
            proof {
                self.delivered@ = self.delivered@ + 1;
            }
            Polled::Ready(ev)
        } else {
            proof {
                self.wakes@ = self.wakes@ + 1;
            }
            Polled::Pending
        }
    }
}

/// A sample is never delivered twice: however the adapter is driven, the
/// events handed out `Ready` never outnumber the samples the kernel
/// buffer handed in, and the difference is exactly what is still queued.
pub proof fn lemma_no_sample_delivered_twice(s: KernelBufStream)
    requires
        s.wf(),
    ensures
        s.delivered@ <= s.enqueued@,
        s.enqueued@ - s.delivered@ == s.queue@.len(),
{
}

} // verus!
