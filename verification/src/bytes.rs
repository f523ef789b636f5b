//! Multi-byte integers in little- and big-endian byte order.

use vstd::prelude::*;

verus! {

/// The value of two bytes read as a little-endian `u16`.
pub open spec fn le_u16(lo: u8, hi: u8) -> int {
    lo + 256 * hi
}

/// Of the value of two little-endian bytes, the first byte is the remainder
/// modulo 256 and the second the quotient.
pub proof fn lemma_le_u16_places(lo: u8, hi: u8)
    ensures
        0 <= le_u16(lo, hi) < 65536,
        le_u16(lo, hi) % 256 == lo,
        le_u16(lo, hi) / 256 == hi,
{
}

/// Reads two bytes as a little-endian `u16`.
pub fn u16_from_le(lo: u8, hi: u8) -> (v: u16)
    ensures
        v == le_u16(lo, hi),
{
    let v = (lo as u16) | ((hi as u16) << 8);
    assert(v == lo + 256 * hi) by (bit_vector)
        requires
            v == (lo as u16) | ((hi as u16) << 8),
    ;
    v
}

/// Reads two bytes as a little-endian `i16` (two's complement).
pub fn i16_from_le(lo: u8, hi: u8) -> (v: i16)
    ensures
        v == if hi < 128 {
            le_u16(lo, hi)
        } else {
            le_u16(lo, hi) - 65536
        },
{
    let u = u16_from_le(lo, hi);
    if hi < 128 {
        u as i16
    } else {
        (u as i32 - 65536) as i16
    }
}

} // verus!
