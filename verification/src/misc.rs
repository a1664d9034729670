//! Release-window computation for chunked emission.

use crate::ts::TS_PACKET_SIZE;
use vstd::prelude::*;

verus! {

/// Largest run of bytes submitted to the sink at once: 7 TS packets, one
/// MTU-sized UDP payload.
pub const MAX_BUF: usize = 7 * TS_PACKET_SIZE;

/// The release window starting at `start`: at most `MAX_BUF` bytes, clipped
/// to `total`.
pub fn offset_calc(start: usize, total: usize) -> (r: (usize, usize))
    requires
        start <= usize::MAX - MAX_BUF,
    ensures
        r.0 == start,
        r.1 == if start + MAX_BUF > total {
            total as int
        } else {
            start + MAX_BUF
        },
{
    let mut end = start + MAX_BUF;
    if end > total {
        end = total;
    }
    (start, end)
}

/// Moves the unwritten tail `buf[from..to]` to the front of the buffer so
/// the next fill appends after it: no parsed byte is lost and none is kept
/// twice at a lower offset. Bytes at and past `to - from` are untouched.
pub fn compact(buf: &mut Vec<u8>, from: usize, to: usize)
    requires
        from <= to,
        to <= old(buf)@.len(),
    ensures
        final(buf)@.len() == old(buf)@.len(),
        forall|i: int| 0 <= i < to - from ==> final(buf)@[i] == old(buf)@[from + i],
        forall|i: int| to - from <= i < old(buf)@.len() ==> final(buf)@[i] == old(buf)@[i],
{
    let count = to - from;
    let mut i: usize = 0;
    while i < count
        invariant
            count == to - from,
            from <= to,
            to <= buf@.len(),
            buf@.len() == old(buf)@.len(),
            i <= count,
            forall|j: int| 0 <= j < i ==> buf@[j] == old(buf)@[from + j],
            forall|j: int| i <= j < buf@.len() ==> buf@[j] == old(buf)@[j],
        decreases count - i,
    {
        let v = buf[from + i];
        buf.set(i, v);
        i += 1;
    }
}

} // verus!
