//! The common event shape and the decoder for raw kernel records.
//!
//! A raw kernel event is a fixed-layout binary record produced by the
//! kernel-side instrumentation: a 16-byte task-name buffer, a 32-bit pid,
//! four bytes of implicit padding, and a 64-bit latency value, all
//! little-endian.  `decode` turns such a record into an `Event<u64>`
//! byte-exactly: the task buffer is copied verbatim, the pid keeps its
//! 32 bits, and the latency is read without truncation.

use vstd::prelude::*;
use vstd::bytes::{spec_u32_from_le_bytes, spec_u64_from_le_bytes, u32_from_le_bytes,
    u64_from_le_bytes};
use vstd::slice::slice_subrange;

verus! {

/// Number of bytes in the fixed task-name buffer of a kernel record.
pub const TASK_COMM_LEN: usize = 16;

/// The ASCII space byte used to pad short task names.
pub const SPACE: u8 = 32;

/// Number of bytes in one raw kernel event record: the task-name buffer,
/// the 32-bit pid, four bytes of padding, and the 64-bit latency value.
pub const RAW_EVENT_BYTES: usize = 32;

/// One observed measurement.  `value` is an unsigned latency count for
/// kernel-buffer tools and a formatted percentage string for polling
/// tools.  Events are immutable values; they carry no identity beyond
/// their content.
#[derive(Debug, Clone, Copy)]
pub struct Event<Value> {
    /// Microseconds since the shared process-relative clock's start (or an
    /// absolute timestamp, when the caller stamps events with one).
    pub time_us: u64,
    /// The task-name buffer, space- or NUL-padded, trimmed only at display.
    pub task: [u8; 16],
    /// The pid, unsigned for display; kernel records carry it as a signed
    /// field of the same width.
    pub pid: u32,
    pub value: Value,
}

/// The task bytes of a raw record: the first 16 bytes, verbatim.
pub open spec fn spec_raw_task(data: Seq<u8>) -> Seq<u8> {
    data.subrange(0, TASK_COMM_LEN as int)
}

/// The pid of a raw record: bytes 16..20, little-endian, kept bit-exact
/// when reinterpreted as unsigned.
pub open spec fn spec_raw_pid(data: Seq<u8>) -> u32 {
    spec_u32_from_le_bytes(data.subrange(16, 20))
}

/// The latency of a raw record: bytes 24..32, little-endian.
pub open spec fn spec_raw_lat_us(data: Seq<u8>) -> u64 {
    spec_u64_from_le_bytes(data.subrange(24, 32))
}

/// Decode one raw kernel record.  Total for every buffer that holds at
/// least one whole record; a shorter buffer is an ABI mismatch and is
/// excluded by the precondition rather than silently padded out.
/// The event's time is stamped by the caller at decode time, since the
/// record itself carries no wall-clock timestamp.
pub fn decode(data: &[u8], now_us: u64) -> (ev: Event<u64>)
    requires
        data@.len() >= RAW_EVENT_BYTES,
    ensures
        ev.time_us == now_us,
        ev.task@ == spec_raw_task(data@),
        ev.pid == spec_raw_pid(data@),
        ev.value == spec_raw_lat_us(data@),
{
    let task: [u8; 16] = [
        data[0], data[1], data[2], data[3],
        data[4], data[5], data[6], data[7],
        data[8], data[9], data[10], data[11],
        data[12], data[13], data[14], data[15],
    ];
    proof {
        assert(task@ =~= spec_raw_task(data@));
    }
    let pid = u32_from_le_bytes(slice_subrange(data, 16, 20));
    let value = u64_from_le_bytes(slice_subrange(data, 24, 32));
    Event { time_us: now_us, task, pid, value }
}

/// A possibly-signed pid reinterpreted as the unsigned 32-bit value
/// with the same bits, as events display it.
pub open spec fn spec_pid_u32(p: i32) -> u32 {
    if p >= 0 {
        p as u32
    } else {
        (p + 0x100000000) as u32
    }
}

/// Reinterpret a signed pid as unsigned, bit-exactly.
pub fn pid_u32(p: i32) -> (r: u32)
    ensures
        r == spec_pid_u32(p),
{
    if p >= 0 {
        p as u32
    } else {
        ((p as i64) + 0x100000000i64) as u32
    }
}

/// The 16-byte task buffer used for a fixed target identity: the name's
/// first bytes, space-padded on the right, as the kernel pads short names.
pub open spec fn spec_task_buf(name: Seq<u8>) -> Seq<u8> {
    Seq::new(TASK_COMM_LEN as nat, |i: int| if i < name.len() { name[i] } else { SPACE })
}

/// Build the fixed task buffer for a polling tool's target from its
/// resolved display name.
pub fn task_buf(name: &[u8]) -> (r: [u8; 16])
    ensures
        r@ == spec_task_buf(name@),
{
    let mut buf: [u8; 16] = [SPACE; 16];
    let n = if name.len() < 16 { name.len() } else { 16 };
    let mut i: usize = 0;
    while i < n
        invariant
            n <= name@.len(),
            n <= 16,
            i <= n,
            buf@.len() == 16,
            forall|j: int| 0 <= j < i ==> buf@[j] == name@[j],
            forall|j: int| i <= j < 16 ==> buf@[j] == SPACE,
        decreases n - i,
    {
        buf[i] = name[i];
        i += 1;
    }
    proof {
        assert(buf@ =~= spec_task_buf(name@));
    }
    buf
}

} // verus!
