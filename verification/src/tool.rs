//! The uniform tool construction contract, the tool error kinds, and the
//! decision rules of the background sampling workers.

use vstd::prelude::*;
use vstd::string::StringExecFns;
use crate::cfg::Cfg;

verus! {

/// Why a tool failed.
///
/// `Libbpf` is an attachment failure: a step of open/configure/load/attach
/// failed while a kernel-buffer tool was constructed.  `Misconfig` is a
/// construction precondition violated before any resource was acquired.
/// `Runtime` is a constructed tool's stream ending when the user did not
/// ask for it.
#[derive(Debug, Clone, Copy)]
pub enum Error {
    Libbpf,
    Misconfig(&'static str),
    Runtime(&'static str),
}

impl Error {
    /// The human-readable rendering of this error.
    pub fn to_message(&self) -> (r: String)
        ensures
            self is Libbpf ==> r@ == "Libbpf"@,
            self matches Error::Misconfig(m) ==> r@ == "Misconfig: "@ + m@,
            self matches Error::Runtime(m) ==> r@ == "Runtime: "@ + m@,
    {
        match self {
            Error::Libbpf => String::from_str("Libbpf"),
            Error::Misconfig(m) => {
                let mut s = String::from_str("Misconfig: ");
                s.append(m);
                s
            },
            Error::Runtime(m) => {
                let mut s = String::from_str("Runtime: ");
                s.append(m);
                s
            },
        }
    }
}

/// The uniform construction contract: every tool is built from one copied
/// configuration snapshot, and construction either yields a tool in its
/// documented fresh state or reports a misconfiguration before any
/// resource is acquired.
pub trait Tool: Sized {
    /// Whether this tool's construction precondition holds for `cfg`.
    spec fn cfg_ok(cfg: Cfg) -> bool;

    /// The state a tool is in straight out of construction.
    spec fn fresh(&self, cfg: Cfg) -> bool;

    /// Build the tool from a configuration snapshot.
    fn try_new(cfg: Cfg) -> (r: Result<Self, Error>)
        ensures
            r is Ok <==> Self::cfg_ok(cfg),
            r matches Ok(t) ==> t.fresh(cfg),
            r matches Err(e) ==> e is Misconfig,
    ;
}

/// Which counter source a sampling worker opens: one process's counters
/// when a positive target pid is configured, the whole system otherwise.
#[derive(Debug, Clone, Copy, PartialEq, Eq, Structural)]
pub enum SamplerScope {
    Process(u32),
    System,
}

/// Pick the counter source for a sampling worker from the target pid.
pub fn sampler_scope(targ_pid: i32) -> (r: SamplerScope)
    ensures
        targ_pid > 0 ==> r == SamplerScope::Process(targ_pid as u32),
        targ_pid <= 0 ==> r == SamplerScope::System,
{
    if targ_pid > 0 {
        SamplerScope::Process(targ_pid as u32)
    } else {
        SamplerScope::System
    }
}

/// What a sampling worker does after one read of its counter: deliver
/// the sample and sleep for the reporting interval, or stop for good.
#[derive(Debug, Clone, Copy, PartialEq, Eq, Structural)]
pub enum CollectorStep {
    Deliver,
    Stop,
}

/// One turn of a sampling worker's loop: deliver a good sample and
/// sleep while the consumer still listens; stop for good once the
/// consumer is gone or the read itself failed — a failed read is fatal
/// for that tool (the caller logs it before stopping).
pub fn collector_step(sample_ok: bool, receiver_alive: bool) -> (r: CollectorStep)
    ensures
        sample_ok && receiver_alive ==> r == CollectorStep::Deliver,
        !(sample_ok && receiver_alive) ==> r == CollectorStep::Stop,
{
    if sample_ok && receiver_alive {
        CollectorStep::Deliver
    } else {
        CollectorStep::Stop
    }
}

} // verus!
