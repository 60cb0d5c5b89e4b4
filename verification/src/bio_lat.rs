//! Block and character device i/o latency tracing.

use vstd::prelude::*;
use crate::cfg::Cfg;
use crate::stream::{KernelBufStream, Polled};
use crate::tool::{Error, Tool};
use crate::event::RAW_EVENT_BYTES;

verus! {

/// The bio-lat tool's stream state, fed by its attached kernel program's
/// buffer.  The runtime shell that owns the attached program and its
/// polling handle holds this value beside them, so probe, buffer and
/// stream live and die as a unit.
pub struct BioLat {
    pub stream: KernelBufStream,
}

impl Tool for BioLat {
    /// A kernel-buffer tool has no configuration precondition; failures
    /// can come only from attaching the kernel program itself.
    open spec fn cfg_ok(cfg: Cfg) -> bool {
        true
    }

    open spec fn fresh(&self, cfg: Cfg) -> bool {
        self.stream.fresh(cfg) && self.stream.wf()
    }

    fn try_new(cfg: Cfg) -> (r: Result<Self, Error>) {
        Ok(BioLat { stream: KernelBufStream::new(cfg) })
    }
}

impl BioLat {
    /// The sample callback path; see `KernelBufStream::on_sample`.
    pub fn on_sample(&mut self, data: &[u8], now_us: u64)
        requires
            old(self).stream.wf(),
            data@.len() >= RAW_EVENT_BYTES,
        ensures
            final(self).stream.wf(),
            KernelBufStream::sample_rel(old(self).stream, final(self).stream, data@, now_us),
    {
        self.stream.on_sample(data, now_us);
    }

    /// One poll of the stream; see `KernelBufStream::poll_next`.
    pub fn poll_next(&mut self, poll_ok: bool) -> (r: Polled<u64>)
        requires
            old(self).stream.wf(),
        ensures
            final(self).stream.wf(),
            KernelBufStream::poll_rel(old(self).stream, final(self).stream, poll_ok, r),
    {
        self.stream.poll_next(poll_ok)
    }
}

} // verus!
