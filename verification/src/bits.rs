//! Bit-level model of IEEE 754 single-precision values.
//!
//! Throughout the crate a single-precision number is carried as its raw
//! 32-bit pattern (`u32`): sign bit, then an 8-bit biased exponent, then a
//! 23-bit fraction. Classification and ordering of such values are plain
//! integer facts about the pattern, so they are defined and verified here
//! without any floating-point type.

use vstd::prelude::*;

verus! {

/// Bit pattern of positive one.
pub const F32_ONE_BITS: u32 = 0x3F80_0000;

/// Bit pattern of positive infinity; every pattern whose magnitude exceeds
/// this one is a NaN, and every finite magnitude lies strictly below it.
pub const F32_INFINITY_BITS: u32 = 0x7F80_0000;

/// Bit pattern of negative zero (sign bit alone).
pub const F32_NEG_ZERO_BITS: u32 = 0x8000_0000;

/// Bit pattern of one tenth, the floor applied to the per-sample gain step.
pub const F32_TENTH_BITS: u32 = 0x3DCC_CCCD;

/// The sign bit of the pattern.
pub open spec fn f32_sign(bits: u32) -> bool {
    bits >= F32_NEG_ZERO_BITS
}

/// The pattern with the sign bit cleared: exponent and fraction only.
pub open spec fn f32_magnitude(bits: u32) -> u32 {
    if bits >= F32_NEG_ZERO_BITS {
        (bits - F32_NEG_ZERO_BITS) as u32
    } else {
        bits
    }
}

/// A NaN has the exponent all ones and a nonzero fraction, i.e. a magnitude
/// strictly above the infinity pattern.
pub open spec fn f32_is_nan(bits: u32) -> bool {
    f32_magnitude(bits) > F32_INFINITY_BITS
}

/// A finite value has an exponent below all ones, i.e. a magnitude strictly
/// below the infinity pattern.
pub open spec fn f32_is_finite(bits: u32) -> bool {
    f32_magnitude(bits) < F32_INFINITY_BITS
}

/// Both zeros: magnitude zero.
pub open spec fn f32_is_zero(bits: u32) -> bool {
    f32_magnitude(bits) == 0
}

/// The IEEE 754 `<` relation on two non-NaN values, read off the patterns:
/// for equal signs the nonnegative patterns order as integers (and reversed
/// under a set sign bit); for unequal signs the negative value is smaller
/// unless both are zeros, which compare equal. A NaN compares less than
/// nothing.
pub open spec fn f32_lt(a: u32, b: u32) -> bool {
    if f32_is_nan(a) || f32_is_nan(b) {
        false
    } else if f32_sign(a) != f32_sign(b) {
        f32_sign(a) && !(f32_is_zero(a) && f32_is_zero(b))
    } else if !f32_sign(a) {
        f32_magnitude(a) < f32_magnitude(b)
    } else {
        f32_magnitude(a) > f32_magnitude(b)
    }
}

/// A value is a valid adaptation target when it is finite and strictly
/// positive: sign clear, magnitude nonzero and below the infinity pattern.
/// On patterns that is exactly `0 < bits < F32_INFINITY_BITS`.
pub open spec fn valid_target_rms(bits: u32) -> bool {
    !f32_sign(bits) && !f32_is_zero(bits) && f32_is_finite(bits)
}

/// A value is a valid distortion factor when it lies in the closed interval
/// from zero to one; a NaN lies in no interval and is rejected. Negative
/// zero equals zero and is therefore accepted.
pub open spec fn valid_distortion_factor(bits: u32) -> bool {
    !f32_is_nan(bits) && {
        if f32_sign(bits) {
            f32_is_zero(bits)
        } else {
            f32_magnitude(bits) <= F32_ONE_BITS
        }
    }
}

/// Runtime computation of `f32_magnitude`.
pub(crate) fn magnitude(bits: u32) -> (r: u32)
    ensures
        r == f32_magnitude(bits),
{
    if bits >= F32_NEG_ZERO_BITS {
        bits - F32_NEG_ZERO_BITS
    } else {
        bits
    }
}

/// Runtime check of `f32_is_nan`.
pub(crate) fn is_nan(bits: u32) -> (r: bool)
    ensures
        r == f32_is_nan(bits),
{
    magnitude(bits) > F32_INFINITY_BITS
}

/// Runtime check of `f32_lt`.
pub(crate) fn lt_bits(a: u32, b: u32) -> (r: bool)
    ensures
        r == f32_lt(a, b),
{
    let ma = magnitude(a);
    let mb = magnitude(b);
    if ma > F32_INFINITY_BITS || mb > F32_INFINITY_BITS {
        false
    } else if (a >= F32_NEG_ZERO_BITS) != (b >= F32_NEG_ZERO_BITS) {
        a >= F32_NEG_ZERO_BITS && !(ma == 0 && mb == 0)
    } else if a < F32_NEG_ZERO_BITS {
        ma < mb
    } else {
        ma > mb
    }
}

/// Runtime check of `valid_target_rms`.
pub(crate) fn is_valid_target_rms(bits: u32) -> (r: bool)
    ensures
        r == valid_target_rms(bits),
{
    0 < bits && bits < F32_INFINITY_BITS
}

/// Runtime check of `valid_distortion_factor`.
pub(crate) fn is_valid_distortion_factor(bits: u32) -> (r: bool)
    ensures
        r == valid_distortion_factor(bits),
{
    bits <= F32_ONE_BITS || bits == F32_NEG_ZERO_BITS
}

} // verus!
