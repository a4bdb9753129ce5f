//! Small bit-manipulation helpers shared by every component: testing,
//! setting and clearing masks, and selecting bit groups out of a byte.

use vstd::prelude::*;

verus! {

/// The value of each single-bit mask, written out.
pub proof fn lemma_bit_values()
    by (bit_vector)
    ensures
        1u8 << 0 == 0x01,
        1u8 << 1 == 0x02,
        1u8 << 2 == 0x04,
        1u8 << 3 == 0x08,
        1u8 << 4 == 0x10,
        1u8 << 5 == 0x20,
        1u8 << 6 == 0x40,
        1u8 << 7 == 0x80,
{
}

/// A masked byte never exceeds the mask.
pub proof fn lemma_u8_and_le(x: u8, m: u8)
    by (bit_vector)
    ensures
        x & m <= m,
        x & m <= x,
{
}

/// A masked word never exceeds the mask.
pub proof fn lemma_u16_and_le(x: u16, m: u16)
    by (bit_vector)
    ensures
        x & m <= m,
        x & m <= x,
{
}

/// The value with only bit `b` set.
pub fn bv(b: u8) -> (r: u8)
    requires
        b < 8,
    ensures
        r == (1u8 << b),
        r != 0,
{
    proof {
        assert(b < 8 ==> (1u8 << b) != 0) by (bit_vector);
    }
    1u8 << b
}

/// True when any bit of `mask` is set in `x`.
pub fn mask_is_set(x: u8, mask: u8) -> (r: bool)
    ensures
        r == ((x & mask) != 0),
{
    x & mask != 0
}

/// True when every bit of `mask` is clear in `x`.
pub fn mask_is_clear(x: u8, mask: u8) -> (r: bool)
    ensures
        r == ((x & mask) == 0),
{
    x & mask == 0
}

/// True when bit `b` of `x` is set.
pub fn bit_is_set(x: u8, b: u8) -> (r: bool)
    requires
        b < 8,
    ensures
        r == ((x & (1u8 << b)) != 0),
{
    let m = bv(b);
    mask_is_set(x, m)
}

/// True when bit `b` of `x` is clear.
pub fn bit_is_clear(x: u8, b: u8) -> (r: bool)
    requires
        b < 8,
    ensures
        r == ((x & (1u8 << b)) == 0),
{
    let m = bv(b);
    mask_is_clear(x, m)
}

/// `x` with every bit of `mask` set.
pub fn mask_set(x: u8, mask: u8) -> (r: u8)
    ensures
        r == (x | mask),
{
    x | mask
}

/// `x` with every bit of `mask` cleared.
pub fn mask_clear(x: u8, mask: u8) -> (r: u8)
    ensures
        r == (x & !mask),
{
    x & !mask
}

/// The bits of `x` selected by `mask` after shifting right by `shift`.
pub fn bit_group(x: u8, mask: u8, shift: u8) -> (r: u8)
    requires
        shift < 8,
    ensures
        r == ((x >> shift) & mask),
{
    (x >> shift) & mask
}

} // verus!
