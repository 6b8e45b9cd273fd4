//! IEEE 754 single-precision arithmetic on raw bit patterns.
//!
//! The verified code never holds a floating-point value; it holds the 32-bit
//! pattern and hands arithmetic to `rustc_apfloat`, a software implementation
//! of IEEE 754 binary arithmetic whose results are a pure function of the
//! operand patterns (default rounding: to nearest, ties to even). Each
//! operation's result is named by an uninterpreted spec function, and every
//! contract in the crate speaks of those names.

use vstd::prelude::*;
use rustc_apfloat::Float;

verus! {

/// The bit pattern of the IEEE 754 single-precision product of two values
/// given by their bit patterns.
pub uninterp spec fn f32_mul_bits(a: u32, b: u32) -> u32;

/// The bit pattern of the IEEE 754 single-precision quotient of two values
/// given by their bit patterns.
pub uninterp spec fn f32_div_bits(a: u32, b: u32) -> u32;

/// The bit pattern of the IEEE 754 single-precision sum of two values given
/// by their bit patterns.
pub uninterp spec fn f32_add_bits(a: u32, b: u32) -> u32;

/// The bit pattern of the IEEE 754 single-precision difference of two values
/// given by their bit patterns.
pub uninterp spec fn f32_sub_bits(a: u32, b: u32) -> u32;

/// Relies on `rustc_apfloat::ieee::Single`'s `Mul` impl (`mul_r` rounding to
/// nearest, ties to even): the product's pattern depends on the operand
/// patterns alone.
#[verifier::external_body]
pub(crate) fn f32_mul(a: u32, b: u32) -> (r: u32)
    ensures
        r == f32_mul_bits(a, b),
{
    let x = rustc_apfloat::ieee::Single::from_bits(a as u128);
    let y = rustc_apfloat::ieee::Single::from_bits(b as u128);
    (x * y).value.to_bits() as u32
}

/// Relies on `rustc_apfloat::ieee::Single`'s `Div` impl (`div_r` rounding to
/// nearest, ties to even): the quotient's pattern depends on the operand
/// patterns alone.
#[verifier::external_body]
pub(crate) fn f32_div(a: u32, b: u32) -> (r: u32)
    ensures
        r == f32_div_bits(a, b),
{
    let x = rustc_apfloat::ieee::Single::from_bits(a as u128);
    let y = rustc_apfloat::ieee::Single::from_bits(b as u128);
    (x / y).value.to_bits() as u32
}

/// Relies on `rustc_apfloat::ieee::Single`'s `Add` impl (`add_r` rounding to
/// nearest, ties to even): the sum's pattern depends on the operand patterns
/// alone.
#[verifier::external_body]
pub(crate) fn f32_add(a: u32, b: u32) -> (r: u32)
    ensures
        r == f32_add_bits(a, b),
{
    let x = rustc_apfloat::ieee::Single::from_bits(a as u128);
    let y = rustc_apfloat::ieee::Single::from_bits(b as u128);
    (x + y).value.to_bits() as u32
}

/// Relies on `rustc_apfloat::ieee::Single`'s `Sub` impl (`sub_r` rounding to
/// nearest, ties to even): the difference's pattern depends on the operand
/// patterns alone.
#[verifier::external_body]
pub(crate) fn f32_sub(a: u32, b: u32) -> (r: u32)
    ensures
        r == f32_sub_bits(a, b),
{
    let x = rustc_apfloat::ieee::Single::from_bits(a as u128);
    let y = rustc_apfloat::ieee::Single::from_bits(b as u128);
    (x - y).value.to_bits() as u32
}

} // verus!
