//! Relay model.
//!
//! The relay engine copies raw bytes between the client and the
//! destination, one independent direction at a time, reading up to a
//! fixed-size buffer and writing it through immediately, with no
//! framing, reordering or duplication. The byte-moving step and the
//! whole copy loop of one direction are verified here over in-memory
//! streams; the surrounding application runs the same loop over the
//! two sockets, concurrently in both directions, and adds only what a
//! pure function cannot: the reads and writes themselves, the idle
//! timeout, and the cancellation that ending one direction sends the
//! other.

use vstd::prelude::*;

verus! {

/// One step of a relay direction: a read produced `n` bytes at the
/// front of `buf`; they are handed on unchanged and in order.
pub fn forward_chunk(buf: &[u8], n: usize) -> (out: Vec<u8>)
    requires
        n <= buf@.len(),
    ensures
        out@ == buf@.subrange(0, n as int),
{
    vstd::slice::slice_to_vec(vstd::slice::slice_subrange(buf, 0, n))
}

/// One relay direction over an in-memory stream: the source is read
/// in pieces of at most `chunk` bytes and each piece is written
/// through at once. Everything sent arrives byte for byte, in order —
/// the relay-integrity statement for one direction; the opposite
/// direction is another instance of the same loop.
pub fn copy_stream(src: &[u8], chunk: usize) -> (out: Vec<u8>)
    requires
        1 <= chunk,
    ensures
        out@ == src@,
{
    let mut out: Vec<u8> = Vec::new();
    let mut i: usize = 0;
    while i < src.len()
        invariant
            1 <= chunk,
            i <= src@.len(),
            out@ == src@.subrange(0, i as int),
        decreases src@.len() - i,
    {
        let end = if chunk < src.len() - i {
            i + chunk
        } else {
            src.len()
        };
        let piece = forward_chunk(vstd::slice::slice_subrange(src, i, end), end - i);
        proof {
            assert(piece@ =~= src@.subrange(i as int, end as int));
        }
        out.extend_from_slice(piece.as_slice());
        proof {
            assert(out@ =~= src@.subrange(0, end as int));
        }
        i = end;
    }
    proof {
        assert(src@.subrange(0, src@.len() as int) =~= src@);
    }
    out
}

} // verus!
