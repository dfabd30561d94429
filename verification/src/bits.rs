//! Comparison of floating-point values held as their IEEE-754 bit patterns, with the
//! meaning of `==` on the values: NaN equals nothing, not even itself, and the two
//! zeros are equal.
use vstd::prelude::*;

verus! {

/// Whether the single-precision pattern `bits` is a NaN: all exponent bits set and a
/// nonzero fraction.
pub open spec fn single_is_nan(bits: u32) -> bool {
    bits & 0x7f80_0000u32 == 0x7f80_0000u32 && bits & 0x007f_ffffu32 != 0
}

/// Whether the single-precision pattern `bits` is a zero of either sign.
pub open spec fn single_is_zero(bits: u32) -> bool {
    bits & 0x7fff_ffffu32 == 0
}

/// Whether the single-precision values with patterns `a` and `b` compare equal.
pub open spec fn single_bits_eq(a: u32, b: u32) -> bool {
    &&& !single_is_nan(a)
    &&& !single_is_nan(b)
    &&& (a == b || (single_is_zero(a) && single_is_zero(b)))
}

/// Whether the double-precision pattern `bits` is a NaN: all exponent bits set and a
/// nonzero fraction.
pub open spec fn double_is_nan(bits: u64) -> bool {
    bits & 0x7ff0_0000_0000_0000u64 == 0x7ff0_0000_0000_0000u64 && bits
        & 0x000f_ffff_ffff_ffffu64 != 0
}

/// Whether the double-precision pattern `bits` is a zero of either sign.
pub open spec fn double_is_zero(bits: u64) -> bool {
    bits & 0x7fff_ffff_ffff_ffffu64 == 0
}

/// Whether the double-precision values with patterns `a` and `b` compare equal.
pub open spec fn double_bits_eq(a: u64, b: u64) -> bool {
    &&& !double_is_nan(a)
    &&& !double_is_nan(b)
    &&& (a == b || (double_is_zero(a) && double_is_zero(b)))
}

/// Compares two single-precision values given by their bit patterns.
pub fn single_bits_equal(a: u32, b: u32) -> (r: bool)
    ensures
        r == single_bits_eq(a, b),
{
    let a_nan = a & 0x7f80_0000u32 == 0x7f80_0000u32 && a & 0x007f_ffffu32 != 0;
    let b_nan = b & 0x7f80_0000u32 == 0x7f80_0000u32 && b & 0x007f_ffffu32 != 0;
    !a_nan && !b_nan && (a == b || (a & 0x7fff_ffffu32 == 0 && b & 0x7fff_ffffu32 == 0))
}

/// Compares two double-precision values given by their bit patterns.
pub fn double_bits_equal(a: u64, b: u64) -> (r: bool)
    ensures
        r == double_bits_eq(a, b),
{
    let a_nan = a & 0x7ff0_0000_0000_0000u64 == 0x7ff0_0000_0000_0000u64 && a
        & 0x000f_ffff_ffff_ffffu64 != 0;
    let b_nan = b & 0x7ff0_0000_0000_0000u64 == 0x7ff0_0000_0000_0000u64 && b
        & 0x000f_ffff_ffff_ffffu64 != 0;
    !a_nan && !b_nan && (a == b || (a & 0x7fff_ffff_ffff_ffffu64 == 0 && b
        & 0x7fff_ffff_ffff_ffffu64 == 0))
}

} // verus!
