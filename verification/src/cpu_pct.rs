//! CPU utilization % monitoring.
//!
//! A background worker samples the target's CPU percentage at the
//! configured reporting interval and queues each sample; the stream side
//! polls that queue non-blockingly and renders each sample as an event.

use vstd::prelude::*;
use crate::cfg::Cfg;
use crate::event::{pid_u32, spec_pid_u32, spec_task_buf, task_buf, Event};
use crate::render::{pct_string, spec_pct};
use crate::stream::Polled;
use crate::tool::{Error, Tool};

verus! {

/// The cpu-pct tool: the receiving end of its sampling worker's queue,
/// plus the fixed target identity every event carries.
pub struct CpuPct {
    /// The configuration snapshot copied at construction.
    pub cfg: Cfg,
    /// The target's display name, resolved once at construction time,
    /// space-padded into the fixed task buffer.
    pub task: [u8; 16],
    /// Ghost: how many samples were delivered as events.
    pub delivered: Ghost<nat>,
    /// Ghost: how many deferred wakes were scheduled.
    pub wakes: Ghost<nat>,
}

impl Tool for CpuPct {
    /// A process-scoped polling tool needs a target identity: at least
    /// one of pid and tgid must be non-zero.
    open spec fn cfg_ok(cfg: Cfg) -> bool {
        cfg.targ_pid != 0 || cfg.targ_tgid != 0
    }

    open spec fn fresh(&self, cfg: Cfg) -> bool {
        &&& self.cfg == cfg
        &&& self.task@ == spec_task_buf(seq![63u8])
        &&& self.delivered@ == 0
        &&& self.wakes@ == 0
    }

    /// Validate the target identity before any worker is spawned; the
    /// task name starts as the placeholder `?` until the caller resolves
    /// the real one.
    fn try_new(cfg: Cfg) -> (r: Result<Self, Error>) {
        if cfg.targ_pid == 0 && cfg.targ_tgid == 0 {
            Err(Error::Misconfig("a polling tool needs a target pid or tgid"))
        } else {
            let placeholder: [u8; 1] = [63];
            proof {
                assert(placeholder@ =~= seq![63u8]);
            }
            Ok(
                CpuPct {
                    cfg,
                    task: task_buf(placeholder.as_slice()),
                    delivered: Ghost(0),
                    wakes: Ghost(0),
                },
            )
        }
    }
}

impl CpuPct {
    /// Replace the placeholder task name with the target's resolved
    /// display name.
    pub fn set_task_name(&mut self, name: &[u8])
        ensures
            final(self).task@ == spec_task_buf(name@),
            final(self).cfg == old(self).cfg,
            final(self).delivered == old(self).delivered,
            final(self).wakes == old(self).wakes,
    {
        self.task = task_buf(name);
    }

    /// One poll of the stream side.  A queued sample, given in
    /// hundredths of a percent, becomes an event stamped with the
    /// caller's clock reading and rendered with two decimal places;
    /// with nothing queued the stream suspends and schedules exactly
    /// one deferred wake.  A polling stream never ends from the pull
    /// side.
    pub fn poll_next(&mut self, sample_centi_pct: Option<u64>, now_us: u64) -> (r: Polled<String>)
        ensures
            final(self).cfg == old(self).cfg,
            final(self).task == old(self).task,
            match sample_centi_pct {
                Some(c) => {
                    &&& (r matches Polled::Ready(ev) && {
                        &&& ev.time_us == now_us
                        &&& ev.task@ == old(self).task@
                        &&& ev.pid == spec_pid_u32(old(self).cfg.targ_pid)
                        &&& ev.value@ == spec_pct(c as nat)
                    })
                    &&& final(self).delivered@ == old(self).delivered@ + 1
                    &&& final(self).wakes@ == old(self).wakes@
                },
                None => {
                    &&& r is Pending
                    &&& final(self).delivered@ == old(self).delivered@
                    &&& final(self).wakes@ == old(self).wakes@ + 1
                },
            },
    {
        match sample_centi_pct {
            Some(c) => {
                let ev = Event {
                    time_us: now_us,
                    task: self.task,
                    pid: pid_u32(self.cfg.targ_pid),
                    value: pct_string(c),
                };
                proof {
                    self.delivered@ = self.delivered@ + 1;
                }
                Polled::Ready(ev)
            },
            None => {
                proof {
                    self.wakes@ = self.wakes@ + 1;
                }
                Polled::Pending
            },
        }
    }
}

} // verus!
