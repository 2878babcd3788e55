//! IEEE 754 arithmetic on bit patterns.
//!
//! A binary64 value is carried as the `u64` that encodes it, a binary32 value as a `u32`.
//! The arithmetic itself is done by the software implementation in `rustc_apfloat`, with
//! the default rounding (to nearest, ties to even). Nothing in this module is proved: each
//! function below only gives a name to what one operation of that crate returns. What
//! needs no rounding (the sign, the order) is not here: it is computed on the bit patterns
//! where the precisions are defined.

use rustc_apfloat::ieee::{Double, Single};
use rustc_apfloat::Float;
use vstd::prelude::*;

verus! {

/// Bits of the binary64 sum of the values encoded by `a` and `b`.
pub uninterp spec fn f64_add(a: u64, b: u64) -> u64;

/// Bits of the binary64 difference of the values encoded by `a` and `b`.
pub uninterp spec fn f64_sub(a: u64, b: u64) -> u64;

/// Bits of the binary64 product of the values encoded by `a` and `b`.
pub uninterp spec fn f64_mul(a: u64, b: u64) -> u64;

/// Bits of the binary64 quotient of the values encoded by `a` and `b`.
pub uninterp spec fn f64_div(a: u64, b: u64) -> u64;

/// Bits of the binary64 value nearest to the integer `n`.
pub uninterp spec fn f64_from_int(n: i128) -> u64;

/// Bits of the binary32 sum of the values encoded by `a` and `b`.
pub uninterp spec fn f32_add(a: u32, b: u32) -> u32;

/// Bits of the binary32 difference of the values encoded by `a` and `b`.
pub uninterp spec fn f32_sub(a: u32, b: u32) -> u32;

/// Bits of the binary32 product of the values encoded by `a` and `b`.
pub uninterp spec fn f32_mul(a: u32, b: u32) -> u32;

/// Bits of the binary32 quotient of the values encoded by `a` and `b`.
pub uninterp spec fn f32_div(a: u32, b: u32) -> u32;

/// Bits of the binary32 value nearest to the integer `n`.
pub uninterp spec fn f32_from_int(n: i128) -> u32;

/// `Double + Double` of `rustc_apfloat`, on bit patterns. Trusted: the result is the
/// function `f64_add` of the two patterns.
#[verifier::external_body]
pub(crate) fn add64(a: u64, b: u64) -> (r: u64)
    ensures
        r == f64_add(a, b),
{
    (Double::from_bits(a as u128) + Double::from_bits(b as u128)).value.to_bits() as u64
}

/// `Double - Double` of `rustc_apfloat`, on bit patterns. Trusted: the result is the
/// function `f64_sub` of the two patterns.
#[verifier::external_body]
pub(crate) fn sub64(a: u64, b: u64) -> (r: u64)
    ensures
        r == f64_sub(a, b),
{
    (Double::from_bits(a as u128) - Double::from_bits(b as u128)).value.to_bits() as u64
}

/// `Double * Double` of `rustc_apfloat`, on bit patterns. Trusted: the result is the
/// function `f64_mul` of the two patterns.
#[verifier::external_body]
pub(crate) fn mul64(a: u64, b: u64) -> (r: u64)
    ensures
        r == f64_mul(a, b),
{
    (Double::from_bits(a as u128) * Double::from_bits(b as u128)).value.to_bits() as u64
}

/// `Double / Double` of `rustc_apfloat`, on bit patterns. A zero divisor is no error: the
/// quotient is then an infinity or a NaN. Trusted: the result is the function `f64_div`
/// of the two patterns.
#[verifier::external_body]
pub(crate) fn div64(a: u64, b: u64) -> (r: u64)
    ensures
        r == f64_div(a, b),
{
    (Double::from_bits(a as u128) / Double::from_bits(b as u128)).value.to_bits() as u64
}

/// `Double::from_i128` of `rustc_apfloat`. Trusted: the result is the function
/// `f64_from_int` of the integer.
#[verifier::external_body]
pub(crate) fn int_to_f64(n: i128) -> (r: u64)
    ensures
        r == f64_from_int(n),
{
    Double::from_i128(n).value.to_bits() as u64
}

/// `Single + Single` of `rustc_apfloat`, on bit patterns. Trusted: the result is the
/// function `f32_add` of the two patterns.
#[verifier::external_body]
pub(crate) fn add32(a: u32, b: u32) -> (r: u32)
    ensures
        r == f32_add(a, b),
{
    (Single::from_bits(a as u128) + Single::from_bits(b as u128)).value.to_bits() as u32
}

/// `Single - Single` of `rustc_apfloat`, on bit patterns. Trusted: the result is the
/// function `f32_sub` of the two patterns.
#[verifier::external_body]
pub(crate) fn sub32(a: u32, b: u32) -> (r: u32)
    ensures
        r == f32_sub(a, b),
{
    (Single::from_bits(a as u128) - Single::from_bits(b as u128)).value.to_bits() as u32
}

/// `Single * Single` of `rustc_apfloat`, on bit patterns. Trusted: the result is the
/// function `f32_mul` of the two patterns.
#[verifier::external_body]
pub(crate) fn mul32(a: u32, b: u32) -> (r: u32)
    ensures
        r == f32_mul(a, b),
{
    (Single::from_bits(a as u128) * Single::from_bits(b as u128)).value.to_bits() as u32
}

/// `Single / Single` of `rustc_apfloat`, on bit patterns. A zero divisor is no error: the
/// quotient is then an infinity or a NaN. Trusted: the result is the function `f32_div`
/// of the two patterns.
#[verifier::external_body]
pub(crate) fn div32(a: u32, b: u32) -> (r: u32)
    ensures
        r == f32_div(a, b),
{
    (Single::from_bits(a as u128) / Single::from_bits(b as u128)).value.to_bits() as u32
}

/// `Single::from_i128` of `rustc_apfloat`. Trusted: the result is the function
/// `f32_from_int` of the integer.
#[verifier::external_body]
pub(crate) fn int_to_f32(n: i128) -> (r: u32)
    ensures
        r == f32_from_int(n),
{
    Single::from_i128(n).value.to_bits() as u32
}

} // verus!
