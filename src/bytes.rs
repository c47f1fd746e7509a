use vstd::prelude::*;

verus! {

/// Whether every bit of `flag` is set in `bits`.
pub open spec fn has_flag(bits: u8, flag: u8) -> bool {
    bits & flag == flag
}

/// The little-endian 16-bit value made of `low` and `high`.
pub open spec fn le16(low: u8, high: u8) -> u16 {
    (high as u16 * 256 + low as u16) as u16
}

/// Combining two bytes with a shift and an or gives their little-endian value.
pub proof fn lemma_le16(low: u8, high: u8)
    ensures
        ((high as u16) << 8) | (low as u16) == le16(low, high),
        le16(low, high) as int == high as int * 256 + low as int,
{
    assert(((high as u16) << 8) | (low as u16) == (high as u16 * 256 + low as u16) as u16)
        by (bit_vector);
}

/// Splitting a 16-bit value into its low and high byte.
pub proof fn lemma_split16(v: u16)
    ensures
        (v & 0xFF) as u8 as int == v % 256,
        (v >> 8) as u8 as int == v / 256,
        v == le16((v & 0xFF) as u8, (v >> 8) as u8),
{
    assert(v & 0xFF == v % 256) by (bit_vector);
    assert(v >> 8 == v / 256) by (bit_vector);
    assert(v == ((((v >> 8) as u8) as u16) * 256 + (((v & 0xFF) as u8) as u16)) as u16)
        by (bit_vector);
}

/// Masking off the high bits of a 16-bit value is a remainder.
pub proof fn lemma_mask16(v: u16)
    ensures
        v & 0x3FFF == v % 0x4000,
        v & 0x07FF == v % 0x0800,
        v & 0x0007 == v % 8,
        v & 0x00FF == v % 0x100,
        v & 0xFF00 == (v - v % 0x100) as u16,
{
    assert(v & 0x3FFF == v % 0x4000) by (bit_vector);
    assert(v & 0x07FF == v % 0x0800) by (bit_vector);
    assert(v & 0x0007 == v % 8) by (bit_vector);
    assert(v & 0x00FF == v % 0x100) by (bit_vector);
    assert(v & 0xFF00 == (v - v % 0x100) as u16) by (bit_vector);
}

} // verus!
