//! The output buffer: lines accumulate in memory and are handed back to
//! the caller's sink in large chunks.
//!
//! The buffer never drops a byte: everything it accepted is either still
//! buffered or was returned by `write_line` or `flush` as a chunk for
//! the sink.  A chunk is written with one trailing newline by the sink,
//! exactly as an unbuffered line would be.

use vstd::prelude::*;
use vstd::slice::slice_to_vec;

verus! {

/// Buffered bytes are flushed once a line no longer fits below this
/// size.
pub const BYTES_BEFORE_FLUSH: usize = 1024 * 1024 * 100;

/// The in-memory output buffer; its view is the buffered bytes.
pub struct Buf {
    bytes: Vec<u8>,
}

impl View for Buf {
    type V = Seq<u8>;

    closed spec fn view(&self) -> Seq<u8> {
        self.bytes@
    }
}

/// What one buffered line write does.  A line too long ever to fit is
/// passed through after the pending bytes (each as its own chunk); a
/// line that no longer fits behind the pending bytes flushes them first;
/// otherwise the line and its newline are buffered and nothing is
/// emitted.
pub open spec fn spec_write_line(
    pre: Seq<u8>,
    line: Seq<u8>,
    post: Seq<u8>,
    out: Seq<Seq<u8>>,
) -> bool {
    if line.len() + 1 > BYTES_BEFORE_FLUSH {
        &&& post == Seq::<u8>::empty()
        &&& out == if pre.len() > 0 {
            seq![pre, line]
        } else {
            seq![line]
        }
    } else if pre.len() + line.len() + 1 > BYTES_BEFORE_FLUSH {
        &&& post == line.push(10u8)
        &&& out == seq![pre]
    } else {
        &&& post == pre + line.push(10u8)
        &&& out == Seq::<Seq<u8>>::empty()
    }
}

impl Buf {
    /// The buffer never holds more than the flush threshold.
    pub open spec fn wf(&self) -> bool {
        self@.len() <= BYTES_BEFORE_FLUSH
    }

    pub fn new() -> (r: Buf)
        ensures
            r@ == Seq::<u8>::empty(),
            r.wf(),
    {
        Buf { bytes: Vec::new() }
    }

    /// Take everything buffered as one chunk for the sink, leaving the
    /// buffer empty; nothing to do when nothing is buffered.
    pub fn flush(&mut self) -> (out: Option<Vec<u8>>)
        ensures
            final(self)@ == Seq::<u8>::empty(),
            final(self).wf(),
            old(self)@.len() > 0 ==> (out matches Some(c) && c@ == old(self)@),
            old(self)@.len() == 0 ==> out is None,
    {
        if self.bytes.len() > 0 {
            let chunk = slice_to_vec(self.bytes.as_slice());
            self.bytes.clear();
            Some(chunk)
        } else {
            None
        }
    }

    /// Buffer one line, flushing as needed; the returned chunks go to
    /// the sink, oldest first.
    pub fn write_line(&mut self, line: &[u8]) -> (out: Vec<Vec<u8>>)
        requires
            old(self).wf(),
        ensures
            final(self).wf(),
            spec_write_line(old(self)@, line@, final(self)@, out.deep_view()),
    {
        let n = line.len();
        let mut out: Vec<Vec<u8>> = Vec::new();
        if n >= BYTES_BEFORE_FLUSH {
            if self.bytes.len() > 0 {
                let chunk = slice_to_vec(self.bytes.as_slice());
                self.bytes.clear();
                out.push(chunk);
            }
            out.push(slice_to_vec(line));
            proof {
                assert(self.bytes@ =~= Seq::<u8>::empty());
                if old(self)@.len() > 0 {
                    assert(out.deep_view() =~~= seq![old(self)@, line@]);
                } else {
                    assert(out.deep_view() =~~= seq![line@]);
                }
            }
        } else {
            if self.bytes.len() + n + 1 > BYTES_BEFORE_FLUSH {
                let chunk = slice_to_vec(self.bytes.as_slice());
                self.bytes.clear();
                out.push(chunk);
                proof {
                    assert(out.deep_view() =~~= seq![old(self)@]);
                }
            }
            let mut tail = slice_to_vec(line);
            tail.push(10);
            self.bytes.append(&mut tail);
            proof {
                if old(self)@.len() + line@.len() + 1 > BYTES_BEFORE_FLUSH {
                    assert(self.bytes@ =~= line@.push(10u8));
                } else {
                    assert(self.bytes@ =~= old(self)@ + line@.push(10u8));
                    assert(out.deep_view() =~~= Seq::<Seq<u8>>::empty());
                }
            }
        }
        out
    }
}

/// The once-only rule of output initialization: the first call claims
/// it and may proceed; every later call is refused (the caller treats
/// a second claim as a programming error).  The flag never goes back.
pub fn init(called: &mut bool) -> (r: bool)
    ensures
        *final(called) == true,
        r == !*old(called),
{
    let first = !*called;
    *called = true;
    first
}

/// Buffer one line; see `Buf::write_line`.
pub fn buf_write_line(buf: &mut Buf, line: &[u8]) -> (out: Vec<Vec<u8>>)
    requires
        old(buf).wf(),
    ensures
        final(buf).wf(),
        spec_write_line(old(buf)@, line@, final(buf)@, out.deep_view()),
{
    buf.write_line(line)
}

/// Flush everything buffered; see `Buf::flush`.
pub fn buf_flush(buf: &mut Buf) -> (out: Option<Vec<u8>>)
    ensures
        final(buf)@ == Seq::<u8>::empty(),
        final(buf).wf(),
        old(buf)@.len() > 0 ==> (out matches Some(c) && c@ == old(buf)@),
        old(buf)@.len() == 0 ==> out is None,
{
    buf.flush()
}

/// Buffering loses nothing: after a write, the emitted chunks followed
/// by what stays buffered are exactly what was buffered before plus the
/// new line — with its newline byte, except for an oversized line whose
/// newline the sink itself appends when writing the chunk.
pub proof fn lemma_write_line_conserves(
    pre: Seq<u8>,
    line: Seq<u8>,
    post: Seq<u8>,
    out: Seq<Seq<u8>>,
)
    requires
        spec_write_line(pre, line, post, out),
    ensures
        out.flatten() + post == pre + line + post.skip(post.len() as int)
            || out.flatten() + post == pre + line.push(10u8),
{
    if line.len() + 1 > BYTES_BEFORE_FLUSH {
        if pre.len() > 0 {
            assert(out =~= seq![pre, line]);
            assert(out.flatten() =~= pre + line) by {
                reveal_with_fuel(Seq::flatten, 3);
                assert(seq![pre, line].drop_first() =~= seq![line]);
                assert(seq![line].drop_first() =~= Seq::<Seq<u8>>::empty());
                assert(Seq::<Seq<u8>>::empty().flatten() =~= Seq::<u8>::empty());
            }
            assert(out.flatten() + post =~= pre + line + post.skip(post.len() as int));
        } else {
            assert(out.flatten() =~= line) by {
                reveal_with_fuel(Seq::flatten, 2);
                assert(seq![line].drop_first() =~= Seq::<Seq<u8>>::empty());
            }
            assert(out.flatten() + post =~= pre + line + post.skip(post.len() as int));
        }
    } else if pre.len() + line.len() + 1 > BYTES_BEFORE_FLUSH {
        assert(out.flatten() =~= pre) by {
            reveal_with_fuel(Seq::flatten, 2);
            assert(seq![pre].drop_first() =~= Seq::<Seq<u8>>::empty());
        }
        assert(out.flatten() + post =~= pre + line.push(10u8));
    } else {
        assert(out.flatten() =~= Seq::<u8>::empty()) by {
            reveal_with_fuel(Seq::flatten, 1);
        }
        assert(out.flatten() + post =~= pre + line.push(10u8));
    }
}

} // verus!
