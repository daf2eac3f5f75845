use vstd::prelude::*;

verus! {

/// The little-endian 16-bit value made of `b[i]` (low byte) and `b[i + 1]`.
pub open spec fn le_u16(b: Seq<u8>, i: int) -> u16 {
    (b[i] + 256 * b[i + 1]) as u16
}

/// A little-endian word holds its first byte in the low eight bits and its
/// second byte in the high eight bits.
pub proof fn law_le_u16_bytes(b: Seq<u8>, i: int)
    requires
        0 <= i,
        i + 1 < b.len(),
    ensures
        le_u16(b, i) % 256 == b[i],
        le_u16(b, i) / 256 == b[i + 1],
{
}

/// Reads the little-endian 16-bit value that starts at `b[i]`.
pub fn read_le_u16(b: &[u8], i: usize) -> (r: u16)
    requires
        i + 1 < b@.len(),
    ensures
        r == le_u16(b@, i as int),
{
    b[i] as u16 + (b[i + 1] as u16) * 256
}

} // verus!
