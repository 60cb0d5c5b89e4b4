//! The shared process-relative clock's start, latched exactly once.

use vstd::prelude::*;

verus! {

/// Latch the process start time.  The first call records the caller's
/// clock reading; every later call returns the recorded value unchanged,
/// so all tools stamp their events against one shared origin.
pub fn prog_start(start: &mut Option<u64>, now_us: u64) -> (r: u64)
    ensures
        *final(start) == Some(r),
        match *old(start) {
            Some(t) => r == t,
            None => r == now_us,
        },
{
    match *start {
        Some(t) => t,
        None => {
            *start = Some(now_us);
            now_us
        },
    }
}

} // verus!
