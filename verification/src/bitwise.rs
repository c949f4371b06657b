//! Bit-level helpers shared by the whole core: single-bit access on `u8` and
//! `u16`, and splitting or joining the bytes of a 16-bit value.

use vstd::prelude::*;

verus! {

/// True when bit `index` of `b` is set.
pub open spec fn bit8(b: u8, index: u8) -> bool {
    (b >> index) & 1 == 1
}

/// `b` with bit `index` forced to `value`.
pub open spec fn set_bit8(b: u8, index: u8, value: bool) -> u8 {
    if value {
        b | (1u8 << index)
    } else {
        b & !(1u8 << index)
    }
}

/// True when bit `index` of `v` is set.
pub open spec fn bit16(v: u16, index: u16) -> bool {
    (v >> index) & 1 == 1
}

/// `v` with bit `index` forced to `value`.
pub open spec fn set_bit16(v: u16, index: u16, value: bool) -> u16 {
    if value {
        v | (1u16 << index)
    } else {
        v & !(1u16 << index)
    }
}

/// The low byte of a 16-bit value.
pub open spec fn low8(v: u16) -> u8 {
    (v % 256) as u8
}

/// The high byte of a 16-bit value.
pub open spec fn high8(v: u16) -> u8 {
    (v / 256) as u8
}

/// The 16-bit value whose low byte is `low` and whose high byte is `high`.
pub open spec fn word(low: u8, high: u8) -> u16 {
    (high * 256 + low) as u16
}

/// Splitting a word built from two bytes gives those bytes back.
pub proof fn lemma_word_parts(low: u8, high: u8)
    ensures
        low8(word(low, high)) == low,
        high8(word(low, high)) == high,
{
    assert(((high * 256 + low) as u16) % 256 == low && ((high * 256 + low) as u16) / 256
        == high) by (bit_vector);
}

/// Joining the two bytes of a word gives the word back.
pub proof fn lemma_word_roundtrip(v: u16)
    ensures
        word(low8(v), high8(v)) == v,
{
    assert((((v / 256) as u8) * 256 + ((v % 256) as u8)) as u16 == v) by (bit_vector);
}

/// A masked byte never exceeds the mask.
pub broadcast proof fn lemma_and_bound_u8(x: u8, m: u8)
    ensures
        #[trigger] (x & m) <= m,
{
    assert(x & m <= m) by (bit_vector);
}

/// A masked 16-bit value never exceeds the mask.
pub broadcast proof fn lemma_and_bound_u16(x: u16, m: u16)
    ensures
        #[trigger] (x & m) <= m,
{
    assert(x & m <= m) by (bit_vector);
}

/// Single-bit access for the fixed-width unsigned integers the core works
/// with, `u8` and `u16`. The generic functions `get_bit`, `set_bit` and
/// `assign_bit` below are the intended entry points.
pub trait BitwiseOps: Sized + Copy {
    /// Number of bits in the type.
    spec fn width() -> usize;

    /// True when bit `index` is set.
    spec fn spec_get_bit(bits: Self, index: usize) -> bool;

    /// The value with bit `index` forced to `value`, all other bits kept.
    spec fn spec_set_bit(bits: Self, index: usize, value: bool) -> Self;

    fn get_bit(bits: Self, index: usize) -> (r: bool)
        requires
            index < Self::width(),
        ensures
            r == Self::spec_get_bit(bits, index),
    ;

    fn set_bit(bits: Self, index: usize, value: bool) -> (r: Self)
        requires
            index < Self::width(),
        ensures
            r == Self::spec_set_bit(bits, index, value),
    ;

    fn assign_bit(bits: &mut Self, index: usize, value: bool)
        requires
            index < Self::width(),
        ensures
            *final(bits) == Self::spec_set_bit(*old(bits), index, value),
    ;
}

impl BitwiseOps for u8 {
    open spec fn width() -> usize {
        8
    }

    open spec fn spec_get_bit(bits: Self, index: usize) -> bool {
        bit8(bits, index as u8)
    }

    open spec fn spec_set_bit(bits: Self, index: usize, value: bool) -> Self {
        set_bit8(bits, index as u8, value)
    }

    fn get_bit(bits: Self, index: usize) -> (r: bool) {
        let shift = index as u8;
        (bits >> shift) & 1 == 1
    }

    fn set_bit(bits: Self, index: usize, value: bool) -> (r: Self) {
        let shift = index as u8;
        if value {
            bits | (1u8 << shift)
        } else {
            bits & !(1u8 << shift)
        }
    }

    fn assign_bit(bits: &mut Self, index: usize, value: bool) {
        *bits = <u8 as BitwiseOps>::set_bit(*bits, index, value);
    }
}

impl BitwiseOps for u16 {
    open spec fn width() -> usize {
        16
    }

    open spec fn spec_get_bit(bits: Self, index: usize) -> bool {
        bit16(bits, index as u16)
    }

    open spec fn spec_set_bit(bits: Self, index: usize, value: bool) -> Self {
        set_bit16(bits, index as u16, value)
    }

    fn get_bit(bits: Self, index: usize) -> (r: bool) {
        let shift = index as u16;
        (bits >> shift) & 1 == 1
    }

    fn set_bit(bits: Self, index: usize, value: bool) -> (r: Self) {
        let shift = index as u16;
        if value {
            bits | (1u16 << shift)
        } else {
            bits & !(1u16 << shift)
        }
    }

    fn assign_bit(bits: &mut Self, index: usize, value: bool) {
        *bits = <u16 as BitwiseOps>::set_bit(*bits, index, value);
    }
}

/// Get the value of the bit at `index` in a number.
pub fn get_bit<T: BitwiseOps>(bits: T, index: usize) -> (r: bool)
    requires
        index < T::width(),
    ensures
        r == T::spec_get_bit(bits, index),
{
    T::get_bit(bits, index)
}

/// Return `bits` with the bit at `index` forced to `value`.
pub fn set_bit<T: BitwiseOps>(bits: T, index: usize, value: bool) -> (r: T)
    requires
        index < T::width(),
    ensures
        r == T::spec_set_bit(bits, index, value),
{
    T::set_bit(bits, index, value)
}

/// Force the bit at `index` of `bits` to `value`, in place.
pub fn assign_bit<T: BitwiseOps>(bits: &mut T, index: usize, value: bool)
    requires
        index < T::width(),
    ensures
        *final(bits) == T::spec_set_bit(*old(bits), index, value),
{
    T::assign_bit(bits, index, value);
}

/// Make a 16-bit value out of two 8-bit values (the low and high bytes).
pub fn hl_to_16b(low: u8, high: u8) -> (r: u16)
    ensures
        r == word(low, high),
{
    (high as u16) * 256 + (low as u16)
}

/// Get the high byte of a 16-bit value.
pub fn get_high(value: u16) -> (r: u8)
    ensures
        r == high8(value),
{
    (value / 256) as u8
}

/// Get the low byte of a 16-bit value.
pub fn get_low(value: u16) -> (r: u8)
    ensures
        r == low8(value),
{
    (value % 256) as u8
}

} // verus!
