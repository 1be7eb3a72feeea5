//! The byte-forwarding loop of an established session.
//!
//! One direction of the stream is a buffer of bytes written at one end and
//! not yet delivered at the other.  Writing appends, delivery removes a
//! prefix, and pumping moves a bounded chunk from one buffer to the next —
//! so a transport that accepts only part of a write is simply pumped again
//! until everything is through.  Every operation preserves the bytes and
//! their order: nothing is dropped, nothing is reordered.  A full-duplex
//! transport is two such buffers, one per direction, never sharing state.

use vstd::prelude::*;
use vstd::math::min;
use vstd::slice::{slice_subrange, slice_to_vec};

verus! {

/// One direction of a byte stream: the bytes accepted from the writer and
/// not yet handed to the reader, oldest first.
pub struct FlowBuffer {
    /// The bytes in flight, in the order they were written.
    pub data: Vec<u8>,
}

impl FlowBuffer {
    /// An empty buffer.
    pub fn new() -> (r: FlowBuffer)
        ensures
            r.data@.len() == 0,
    {
        FlowBuffer { data: Vec::new() }
    }

    /// How many bytes are in flight.
    pub fn len(&self) -> (r: usize)
        ensures
            r == self.data@.len(),
    {
        self.data.len()
    }

    /// Accepts a chunk from the writer: the bytes go to the back, in
    /// order, after everything already in flight.
    pub fn write(&mut self, chunk: &[u8])
        ensures
            final(self).data@ == old(self).data@ + chunk@,
    {
        let mut owned = slice_to_vec(chunk);
        self.data.append(&mut owned);
    }

    /// Hands the reader at most `max` bytes: exactly the oldest
    /// `min(max, len)` bytes, in order, which leave the buffer.
    pub fn take_front(&mut self, max: usize) -> (out: Vec<u8>)
        ensures
            out@ == old(self).data@.take(min(max as int, old(self).data@.len() as int)),
            final(self).data@ == old(self).data@.skip(
                min(max as int, old(self).data@.len() as int),
            ),
    {
        let n = self.data.len();
        let m = if max < n {
            max
        } else {
            n
        };
        let out = slice_to_vec(slice_subrange(self.data.as_slice(), 0, m));
        let rest = slice_to_vec(slice_subrange(self.data.as_slice(), m, n));
        self.data = rest;
        out
    }
}

/// Moves at most `max` bytes from `src` to the back of `dst`.  The moved
/// bytes are exactly the oldest of `src`, appended in order: the combined
/// stream — delivered part then undelivered part — is unchanged, so
/// nothing is lost and nothing is reordered, however small the chunks a
/// transport accepts.
pub fn pump(src: &mut FlowBuffer, dst: &mut FlowBuffer, max: usize)
    ensures
        final(dst).data@ == old(dst).data@ + old(src).data@.take(
            min(max as int, old(src).data@.len() as int),
        ),
        final(src).data@ == old(src).data@.skip(min(max as int, old(src).data@.len() as int)),
        final(dst).data@ + final(src).data@ == old(dst).data@ + old(src).data@,
{
    let chunk = src.take_front(max);
    dst.write(chunk.as_slice());
    proof {
        let m = min(max as int, old(src).data@.len() as int);
        assert(old(src).data@.take(m) + old(src).data@.skip(m) =~= old(src).data@);
        assert(final(dst).data@ + final(src).data@ =~= old(dst).data@ + old(src).data@);
    }
}

/// Pumps until `src` is drained, at most `chunk_max` bytes per pump — a
/// partial write is simply retried.  Afterwards the destination holds its
/// old bytes followed by exactly the bytes `src` held, in order.
pub fn flush_through(src: &mut FlowBuffer, dst: &mut FlowBuffer, chunk_max: usize)
    requires
        chunk_max >= 1,
    ensures
        final(src).data@.len() == 0,
        final(dst).data@ == old(dst).data@ + old(src).data@,
{
    while src.data.len() > 0
        invariant
            chunk_max >= 1,
            dst.data@ + src.data@ == old(dst).data@ + old(src).data@,
        decreases src.data@.len(),
    {
        pump(src, dst, chunk_max);
    }
    proof {
        assert(final(dst).data@ + final(src).data@ =~= final(dst).data@);
    }
}

} // verus!
