//! The shared configuration record, copied into every tool at
//! construction time and immutable thereafter.

use vstd::prelude::*;
use vstd::bytes::{spec_u32_to_le_bytes, spec_u64_to_le_bytes, u32_to_le_bytes, u64_to_le_bytes};
use crate::event::{pid_u32, spec_pid_u32};

verus! {

/// Configuration shared by every tool: the minimum-latency threshold for
/// tracing tools, the reporting interval for monitoring tools, the target
/// process and thread, and the filter switches understood by the kernel
/// programs.
#[derive(Debug, Clone, Copy, PartialEq, Eq, Structural)]
pub struct Cfg {
    pub min_lat_us: u64,
    pub targ_reporting_interval_ms: u64,
    pub targ_pid: i32,
    pub targ_tgid: i32,
    pub targ_dev: u64,
    pub targ_filter_dev: bool,
    pub targ_filter_cgroup: bool,
    pub targ_filter_queued: bool,
}

impl Cfg {
    /// A configuration equal to `self` except that the minimum-latency
    /// threshold is replaced by `min_lat_us` when an override is given.
    pub fn with_min_lat_override(self, min_lat_override_us: Option<u64>) -> (r: Cfg)
        ensures
            r.min_lat_us == (match min_lat_override_us {
                Some(v) => v,
                None => self.min_lat_us,
            }),
            r.targ_reporting_interval_ms == self.targ_reporting_interval_ms,
            r.targ_pid == self.targ_pid,
            r.targ_tgid == self.targ_tgid,
            r.targ_dev == self.targ_dev,
            r.targ_filter_dev == self.targ_filter_dev,
            r.targ_filter_cgroup == self.targ_filter_cgroup,
            r.targ_filter_queued == self.targ_filter_queued,
    {
        match min_lat_override_us {
            Some(v) => Cfg { min_lat_us: v, ..self },
            None => self,
        }
    }

    /// The kernel program's configuration area, as its read-only data
    /// section lays it out: the minimum-latency threshold, then the
    /// target pid and tgid as their unsigned bit patterns, all
    /// little-endian — sixteen bytes.
    pub fn rodata_bytes(&self) -> (v: Vec<u8>)
        ensures
            v@ == spec_u64_to_le_bytes(self.min_lat_us) + spec_u32_to_le_bytes(
                spec_pid_u32(self.targ_pid),
            ) + spec_u32_to_le_bytes(spec_pid_u32(self.targ_tgid)),
            v@.len() == 16,
    {
        let mut v = u64_to_le_bytes(self.min_lat_us);
        let mut pid = u32_to_le_bytes(pid_u32(self.targ_pid));
        v.append(&mut pid);
        let mut tgid = u32_to_le_bytes(pid_u32(self.targ_tgid));
        v.append(&mut tgid);
        v
    }
}

} // verus!
