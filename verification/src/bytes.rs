//! Big-endian field extraction from byte ranges.

use vstd::prelude::*;

verus! {

/// Big-endian 16-bit value formed from the first two bytes of a sequence.
pub open spec fn spec_u16_be(b: Seq<u8>) -> u16
    recommends
        b.len() >= 2,
{
    ((b[0] as u16) << 8) | (b[1] as u16)
}

/// Big-endian field extraction over a byte range.
pub trait Bytes {
    /// View of the underlying bytes.
    spec fn bytes_view(&self) -> Seq<u8>;

    /// Reads a big-endian 16-bit value from the first two bytes.
    fn get_u16(&self) -> (r: u16)
        requires
            self.bytes_view().len() >= 2,
        ensures
            r == spec_u16_be(self.bytes_view()),
    ;
}

/// Big-endian 16-bit value formed from the two bytes at offset `i`.
pub open spec fn spec_u16_at(b: Seq<u8>, i: int) -> u16
    recommends
        0 <= i,
        i + 2 <= b.len(),
{
    ((b[i] as u16) << 8) | (b[i + 1] as u16)
}

/// Reads a big-endian 16-bit value from the two bytes at offset `i`.
pub fn read_u16_at(b: &[u8], i: usize) -> (r: u16)
    requires
        i + 2 <= b@.len(),
    ensures
        r == spec_u16_at(b@, i as int),
{
    // Binds the length as a usize so `i + 2` is known not to overflow.
    let _len = b.len();
    let two = &b[i..i + 2];
    proof {
        assert(two@[0] == b@[i as int]);
        assert(two@[1] == b@[i as int + 1]);
    }
    two.get_u16()
}

impl Bytes for [u8] {
    open spec fn bytes_view(&self) -> Seq<u8> {
        self@
    }

    fn get_u16(&self) -> (r: u16) {
        ((self[0] as u16) << 8) | (self[1] as u16)
    }
}

} // verus!
