//! The concurrency supervisor: one slot of concurrent work per tool,
//! enabled or not, raced against the user's interrupt.
//!
//! The decision rules live here, verified: which tools a run enables,
//! which effective configuration each tool receives, how one slot's
//! state advances on the events its unit observes, and what the run
//! does when the race resolves.  The cooperative scheduler that drives
//! the slots is the caller's; it feeds these functions and performs
//! the actions they return.

use vstd::prelude::*;
use crate::cfg::Cfg;
use crate::outf::Buf;
use crate::render::{OutputFormat, TimeFormat};
use crate::tool::Error;

verus! {

/// The closed set of tools a run can drive.
#[derive(Debug, Clone, Copy, PartialEq, Eq, Structural)]
pub enum ToolKind {
    BioLat,
    RqLat,
    FsLat,
    TcpPktLat,
    CpuPct,
    MemPct,
}

/// One run's options, as the configuration source hands them over:
/// per-tool enable flags, the shared thresholds and intervals with the
/// per-tool minimum-latency overrides, and the output shape.
#[derive(Debug, Clone, Copy)]
pub struct Opts {
    pub all: bool,
    pub bio_lat: bool,
    pub rq_lat: bool,
    pub fs_lat: bool,
    pub tcp_pkt_lat: bool,
    pub cpu_pct: bool,
    pub mem_pct: bool,
    pub pid: i32,
    pub tgid: i32,
    pub min_lat_us: u64,
    pub min_bio_lat_us: Option<u64>,
    pub min_rq_lat_us: Option<u64>,
    pub min_fs_lat_us: Option<u64>,
    pub min_tcp_pkt_lat_us: Option<u64>,
    pub reporting_interval_ms: u64,
    pub output_format: OutputFormat,
    pub time_format: TimeFormat,
    pub buffered: bool,
    pub no_header: bool,
    pub just_header: bool,
}

/// The time format a run renders with: the deprecated duration-format
/// flag, when given, wins over the newer time-format flag.
pub fn effective_time_format(
    duration_format: Option<TimeFormat>,
    time_format: TimeFormat,
) -> (r: TimeFormat)
    ensures
        r == (match duration_format {
            Some(d) => d,
            None => time_format,
        }),
{
    match duration_format {
        Some(d) => d,
        None => time_format,
    }
}

/// Whether a run with these options drives the given tool.
pub open spec fn spec_enabled(opts: Opts, k: ToolKind) -> bool {
    opts.all || match k {
        ToolKind::BioLat => opts.bio_lat,
        ToolKind::RqLat => opts.rq_lat,
        ToolKind::FsLat => opts.fs_lat,
        ToolKind::TcpPktLat => opts.tcp_pkt_lat,
        ToolKind::CpuPct => opts.cpu_pct,
        ToolKind::MemPct => opts.mem_pct,
    }
}

/// Whether a run with these options drives the given tool.
pub fn enabled(opts: &Opts, k: ToolKind) -> (r: bool)
    ensures
        r == spec_enabled(*opts, k),
{
    opts.all || match k {
        ToolKind::BioLat => opts.bio_lat,
        ToolKind::RqLat => opts.rq_lat,
        ToolKind::FsLat => opts.fs_lat,
        ToolKind::TcpPktLat => opts.tcp_pkt_lat,
        ToolKind::CpuPct => opts.cpu_pct,
        ToolKind::MemPct => opts.mem_pct,
    }
}

/// The per-tool minimum-latency override, if the options carry one;
/// the polling tools have none.
pub open spec fn spec_min_lat_override(opts: Opts, k: ToolKind) -> Option<u64> {
    match k {
        ToolKind::BioLat => opts.min_bio_lat_us,
        ToolKind::RqLat => opts.min_rq_lat_us,
        ToolKind::FsLat => opts.min_fs_lat_us,
        ToolKind::TcpPktLat => opts.min_tcp_pkt_lat_us,
        ToolKind::CpuPct => None,
        ToolKind::MemPct => None,
    }
}

/// The effective configuration a tool is constructed with: the shared
/// record, except that the tool's own minimum-latency override, when
/// present, replaces the shared threshold.
pub open spec fn spec_cfg_for_tool(opts: Opts, k: ToolKind) -> Cfg {
    Cfg {
        min_lat_us: match spec_min_lat_override(opts, k) {
            Some(v) => v,
            None => opts.min_lat_us,
        },
        targ_reporting_interval_ms: opts.reporting_interval_ms,
        targ_pid: opts.pid,
        targ_tgid: opts.tgid,
        targ_dev: 0,
        targ_filter_dev: false,
        targ_filter_cgroup: false,
        targ_filter_queued: false,
    }
}

/// Build the configuration snapshot one tool is constructed with.
pub fn cfg_for_tool(opts: &Opts, k: ToolKind) -> (c: Cfg)
    ensures
        c == spec_cfg_for_tool(*opts, k),
{
    let min_lat_override_us = match k {
        ToolKind::BioLat => opts.min_bio_lat_us,
        ToolKind::RqLat => opts.min_rq_lat_us,
        ToolKind::FsLat => opts.min_fs_lat_us,
        ToolKind::TcpPktLat => opts.min_tcp_pkt_lat_us,
        ToolKind::CpuPct => None,
        ToolKind::MemPct => None,
    };
    let shared = Cfg {
        min_lat_us: opts.min_lat_us,
        targ_reporting_interval_ms: opts.reporting_interval_ms,
        targ_pid: opts.pid,
        targ_tgid: opts.tgid,
        targ_dev: 0,
        targ_filter_dev: false,
        targ_filter_cgroup: false,
        targ_filter_queued: false,
    };
    shared.with_min_lat_override(min_lat_override_us)
}

/// Overrides are per tool: a tool with a minimum-latency override is
/// configured with exactly its override, and every tool without one is
/// configured with the shared threshold.
pub proof fn lemma_effective_threshold(opts: Opts, k: ToolKind)
    ensures
        spec_min_lat_override(opts, k) matches Some(v) ==> spec_cfg_for_tool(opts, k).min_lat_us
            == v,
        spec_min_lat_override(opts, k) is None ==> spec_cfg_for_tool(opts, k).min_lat_us
            == opts.min_lat_us,
{
}

/// What one slot's unit observes: its tool's construction failed, its
/// stream produced an event (which was handed to the output), or its
/// stream ended.
#[derive(Debug, Clone, Copy)]
pub enum SlotEvent {
    ConstructFailed(Error),
    EventReady,
    StreamEnded,
}

/// One slot's state: a disabled slot blocks forever; an enabled slot
/// runs its tool's stream until the stream ends or construction fails,
/// and is then done for good.
#[derive(Debug, Clone, Copy)]
pub enum SlotState {
    Disabled,
    Running,
    Done,
}

/// The slot a run starts for a tool: running when the tool is enabled,
/// blocked forever otherwise.
pub open spec fn spec_slot_init(opts: Opts, k: ToolKind) -> SlotState {
    if spec_enabled(opts, k) {
        SlotState::Running
    } else {
        SlotState::Disabled
    }
}

/// The slot a run starts for a tool.
pub fn slot_init(opts: &Opts, k: ToolKind) -> (s: SlotState)
    ensures
        s == spec_slot_init(*opts, k),
{
    if enabled(opts, k) {
        SlotState::Running
    } else {
        SlotState::Disabled
    }
}

/// How a slot's state advances on one observed event.  A disabled slot
/// ignores everything — it waits on a resource that is never signaled —
/// and a done slot stays done; a running slot keeps running while its
/// stream produces events and is done when construction fails or the
/// stream ends.
pub open spec fn spec_slot_step(s: SlotState, ev: SlotEvent) -> SlotState {
    match s {
        SlotState::Disabled => SlotState::Disabled,
        SlotState::Done => SlotState::Done,
        SlotState::Running => match ev {
            SlotEvent::ConstructFailed(_) => SlotState::Done,
            SlotEvent::EventReady => SlotState::Running,
            SlotEvent::StreamEnded => SlotState::Done,
        },
    }
}

/// Advance a slot's state by one observed event.
pub fn slot_step(s: SlotState, ev: SlotEvent) -> (r: SlotState)
    ensures
        r == spec_slot_step(s, ev),
{
    match s {
        SlotState::Disabled => SlotState::Disabled,
        SlotState::Done => SlotState::Done,
        SlotState::Running => match ev {
            SlotEvent::ConstructFailed(_) => SlotState::Done,
            SlotEvent::EventReady => SlotState::Running,
            SlotEvent::StreamEnded => SlotState::Done,
        },
    }
}

/// The error a slot resolves with: the construction failure itself, or
/// the distinguishable "ended, but not by user request" condition when
/// the stream ran dry.
pub fn slot_error(ev: SlotEvent) -> (r: Error)
    ensures
        ev matches SlotEvent::ConstructFailed(e) ==> r == e,
        !(ev matches SlotEvent::ConstructFailed(_)) ==> (r matches Error::Runtime(m) && m@
            == "Task ended, but not because of the user"@),
{
    match ev {
        SlotEvent::ConstructFailed(e) => e,
        SlotEvent::EventReady | SlotEvent::StreamEnded => Error::Runtime(
            "Task ended, but not because of the user",
        ),
    }
}

/// A slot's state after a whole history of observed events.
pub open spec fn spec_slot_after(opts: Opts, k: ToolKind, evs: Seq<SlotEvent>) -> SlotState
    decreases evs.len(),
{
    if evs.len() == 0 {
        spec_slot_init(opts, k)
    } else {
        spec_slot_step(spec_slot_after(opts, k, evs.drop_last()), evs.last())
    }
}

/// A disabled tool's slot never resolves: whatever events its unit
/// would observe, the slot stays blocked, so the race over all slots
/// can only be won by an enabled tool or by the user's interrupt.
pub proof fn lemma_disabled_slot_never_resolves(opts: Opts, k: ToolKind, evs: Seq<SlotEvent>)
    requires
        !spec_enabled(opts, k),
    ensures
        spec_slot_after(opts, k, evs) is Disabled,
    decreases evs.len(),
{
    if evs.len() > 0 {
        lemma_disabled_slot_never_resolves(opts, k, evs.drop_last());
    }
}

/// With every tool-enable flag false, no slot ever completes: the race
/// can resolve only through the interrupt path.
pub proof fn lemma_all_disabled_only_interrupt(opts: Opts, k: ToolKind, evs: Seq<SlotEvent>)
    requires
        !opts.all,
        !opts.bio_lat,
        !opts.rq_lat,
        !opts.fs_lat,
        !opts.tcp_pkt_lat,
        !opts.cpu_pct,
        !opts.mem_pct,
    ensures
        !(spec_slot_after(opts, k, evs) is Done),
{
    lemma_disabled_slot_never_resolves(opts, k, evs);
}

/// Why the race over all slots resolved: an enabled tool's slot
/// completed with an error, or the user interrupted the run.
#[derive(Debug, Clone, Copy)]
pub enum RunEnd {
    ToolEnded(Error),
    Interrupted,
}

/// Finish the run.  A user interrupt is never an error: the buffered
/// output is flushed — once, before success is reported — and the
/// returned chunk carries every buffered byte, so nothing already
/// accepted for output is lost.  A tool's completion is the run's
/// failure, and the buffer is left untouched.
pub fn finish_run(end: RunEnd, buf: &mut Buf) -> (r: (Option<Vec<u8>>, Result<(), Error>))
    ensures
        end is Interrupted ==> {
            &&& r.1 is Ok
            &&& final(buf)@ == Seq::<u8>::empty()
            &&& (old(buf)@.len() > 0 ==> (r.0 matches Some(c) && c@ == old(buf)@))
            &&& (old(buf)@.len() == 0 ==> r.0 is None)
        },
        end matches RunEnd::ToolEnded(e) ==> {
            &&& r.1 == Err::<(), Error>(e)
            &&& r.0 is None
            &&& *final(buf) == *old(buf)
        },
{
    match end {
        RunEnd::Interrupted => {
            let chunk = buf.flush();
            (chunk, Ok(()))
        },
        RunEnd::ToolEnded(e) => (None, Err(e)),
    }
}

} // verus!
