//! The two floating-point precisions behind one interface.
//!
//! `Float64` and `Float32` hold the bit pattern of a binary64 and of a binary32 value.
//! Every operation of `Scalar` has a specification function beside it, so that what a
//! kernel computes can be written down once and holds for both precisions.

use crate::ieee::{
    add32, add64, div32, div64, f32_add, f32_div, f32_from_int, f32_mul, f32_sub, f64_add,
    f64_div, f64_from_int, f64_mul, f64_sub, int_to_f32, int_to_f64, mul32, mul64, sub32, sub64,
};
use vstd::prelude::*;

verus! {

/// The literals that the formulas use. Each precision rounds them on its own.
#[derive(Clone, Copy, Debug, PartialEq, Eq, Structural)]
pub enum Lit {
    /// 0
    Zero,
    /// 0.5
    Half,
    /// 1
    One,
    /// 1.8
    OnePointEight,
    /// 2
    Two,
    /// 4
    Four,
    /// -0.03125, the damping factor of the Newton step
    Damping,
    /// 0.000001, the tolerance of the Newton root test
    Tolerance,
    /// The square root of 3, halved: the imaginary part of a primitive cube root of unity
    RootImag,
}

/// A floating-point number of one precision.
pub trait Scalar: Copy + Sized {
    /// The literal `l`, rounded to this precision.
    spec fn lit_spec(l: Lit) -> Self;

    /// The value nearest to the integer `n`.
    spec fn from_int_spec(n: i128) -> Self;

    /// The rounded sum.
    spec fn add_spec(self, rhs: Self) -> Self;

    /// The rounded difference.
    spec fn sub_spec(self, rhs: Self) -> Self;

    /// The rounded product.
    spec fn mul_spec(self, rhs: Self) -> Self;

    /// The rounded quotient; an infinity or a NaN where `rhs` is zero.
    spec fn div_spec(self, rhs: Self) -> Self;

    /// Whether `self` is less than `rhs`; false where either is a NaN.
    spec fn lt_spec(self, rhs: Self) -> bool;

    /// Whether `self` is not a number.
    spec fn is_nan_spec(self) -> bool;

    /// The value with the opposite sign.
    spec fn neg_spec(self) -> Self;

    /// The value with its sign cleared.
    spec fn abs_spec(self) -> Self;

    fn lit(l: Lit) -> (r: Self)
        ensures
            r == Self::lit_spec(l),
    ;

    fn from_int(n: i128) -> (r: Self)
        ensures
            r == Self::from_int_spec(n),
    ;

    fn add(self, rhs: Self) -> (r: Self)
        ensures
            r == self.add_spec(rhs),
    ;

    fn sub(self, rhs: Self) -> (r: Self)
        ensures
            r == self.sub_spec(rhs),
    ;

    fn mul(self, rhs: Self) -> (r: Self)
        ensures
            r == self.mul_spec(rhs),
    ;

    fn div(self, rhs: Self) -> (r: Self)
        ensures
            r == self.div_spec(rhs),
    ;

    fn lt(self, rhs: Self) -> (r: bool)
        ensures
            r == self.lt_spec(rhs),
    ;

    fn neg(self) -> (r: Self)
        ensures
            r == self.neg_spec(),
    ;

    fn abs(self) -> (r: Self)
        ensures
            r == self.abs_spec(),
    ;

    /// Nothing is less than a NaN, and a NaN is less than nothing.
    proof fn lemma_nan_is_unordered(a: Self, b: Self)
        ensures
            a.is_nan_spec() || b.is_nan_spec() ==> !a.lt_spec(b),
    ;
}

/// A binary64 value, held as its bit pattern.
#[derive(Clone, Copy, Debug, PartialEq, Eq, Structural)]
pub struct Float64 {
    pub bits: u64,
}

/// A binary32 value, held as its bit pattern.
#[derive(Clone, Copy, Debug, PartialEq, Eq, Structural)]
pub struct Float32 {
    pub bits: u32,
}

/// The sign bit of a binary64 pattern.
pub const SIGN64: u64 = 0x8000_0000_0000_0000;

/// The sign bit of a binary32 pattern.
pub const SIGN32: u32 = 0x8000_0000;

/// The binary64 pattern of positive infinity. The patterns whose magnitude is greater are
/// the NaNs.
pub const INFINITY64: u64 = 0x7ff0_0000_0000_0000;

/// The binary32 pattern of positive infinity. The patterns whose magnitude is greater are
/// the NaNs.
pub const INFINITY32: u32 = 0x7f80_0000;

/// Whether the binary64 value with pattern `a` is less than the one with pattern `b`.
///
/// A NaN is not less than anything and nothing is less than it. The two zeros are equal.
/// Otherwise a negative value is less than a positive one, and two values of one sign are
/// ordered by their magnitudes, which are ordered as their patterns are.
pub open spec fn lt_bits64(a: u64, b: u64) -> bool {
    let ma = a & !SIGN64;
    let mb = b & !SIGN64;
    if ma > INFINITY64 || mb > INFINITY64 {
        false
    } else if a & SIGN64 == 0 {
        b & SIGN64 == 0 && ma < mb
    } else if b & SIGN64 == 0 {
        ma != 0 || mb != 0
    } else {
        ma > mb
    }
}

/// Whether the binary32 value with pattern `a` is less than the one with pattern `b`; as
/// `lt_bits64`.
pub open spec fn lt_bits32(a: u32, b: u32) -> bool {
    let ma = a & !SIGN32;
    let mb = b & !SIGN32;
    if ma > INFINITY32 || mb > INFINITY32 {
        false
    } else if a & SIGN32 == 0 {
        b & SIGN32 == 0 && ma < mb
    } else if b & SIGN32 == 0 {
        ma != 0 || mb != 0
    } else {
        ma > mb
    }
}

/// The binary64 pattern of each literal.
pub open spec fn lit_bits64(l: Lit) -> u64 {
    match l {
        Lit::Zero => 0x0000_0000_0000_0000,
        Lit::Half => 0x3fe0_0000_0000_0000,
        Lit::One => 0x3ff0_0000_0000_0000,
        Lit::OnePointEight => 0x3ffc_cccc_cccc_cccd,
        Lit::Two => 0x4000_0000_0000_0000,
        Lit::Four => 0x4010_0000_0000_0000,
        Lit::Damping => 0xbfa0_0000_0000_0000,
        Lit::Tolerance => 0x3eb0_c6f7_a0b5_ed8d,
        Lit::RootImag => 0x3feb_b67a_e858_4caa,
    }
}

/// The binary32 pattern of each literal.
pub open spec fn lit_bits32(l: Lit) -> u32 {
    match l {
        Lit::Zero => 0x0000_0000,
        Lit::Half => 0x3f00_0000,
        Lit::One => 0x3f80_0000,
        Lit::OnePointEight => 0x3fe6_6666,
        Lit::Two => 0x4000_0000,
        Lit::Four => 0x4080_0000,
        Lit::Damping => 0xbd00_0000,
        Lit::Tolerance => 0x3586_37bd,
        Lit::RootImag => 0x3f5d_b3d7,
    }
}

impl Scalar for Float64 {
    open spec fn lit_spec(l: Lit) -> Self {
        Float64 { bits: lit_bits64(l) }
    }

    open spec fn from_int_spec(n: i128) -> Self {
        Float64 { bits: f64_from_int(n) }
    }

    open spec fn add_spec(self, rhs: Self) -> Self {
        Float64 { bits: f64_add(self.bits, rhs.bits) }
    }

    open spec fn sub_spec(self, rhs: Self) -> Self {
        Float64 { bits: f64_sub(self.bits, rhs.bits) }
    }

    open spec fn mul_spec(self, rhs: Self) -> Self {
        Float64 { bits: f64_mul(self.bits, rhs.bits) }
    }

    open spec fn div_spec(self, rhs: Self) -> Self {
        Float64 { bits: f64_div(self.bits, rhs.bits) }
    }

    open spec fn lt_spec(self, rhs: Self) -> bool {
        lt_bits64(self.bits, rhs.bits)
    }

    open spec fn is_nan_spec(self) -> bool {
        self.bits & !SIGN64 > INFINITY64
    }

    open spec fn neg_spec(self) -> Self {
        Float64 { bits: self.bits ^ SIGN64 }
    }

    open spec fn abs_spec(self) -> Self {
        Float64 { bits: self.bits & !SIGN64 }
    }

    fn lit(l: Lit) -> (r: Self) {
        let bits: u64 = match l {
            Lit::Zero => 0x0000_0000_0000_0000,
            Lit::Half => 0x3fe0_0000_0000_0000,
            Lit::One => 0x3ff0_0000_0000_0000,
            Lit::OnePointEight => 0x3ffc_cccc_cccc_cccd,
            Lit::Two => 0x4000_0000_0000_0000,
                Lit::Four => 0x4010_0000_0000_0000,
            Lit::Damping => 0xbfa0_0000_0000_0000,
            Lit::Tolerance => 0x3eb0_c6f7_a0b5_ed8d,
            Lit::RootImag => 0x3feb_b67a_e858_4caa,
        };
        Float64 { bits }
    }

    fn from_int(n: i128) -> (r: Self) {
        Float64 { bits: int_to_f64(n) }
    }

    fn add(self, rhs: Self) -> (r: Self) {
        Float64 { bits: add64(self.bits, rhs.bits) }
    }

    fn sub(self, rhs: Self) -> (r: Self) {
        Float64 { bits: sub64(self.bits, rhs.bits) }
    }

    fn mul(self, rhs: Self) -> (r: Self) {
        Float64 { bits: mul64(self.bits, rhs.bits) }
    }

    fn div(self, rhs: Self) -> (r: Self) {
        Float64 { bits: div64(self.bits, rhs.bits) }
    }

    fn lt(self, rhs: Self) -> (r: bool) {
        let ma = self.bits & !SIGN64;
        let mb = rhs.bits & !SIGN64;
        if ma > INFINITY64 || mb > INFINITY64 {
            false
        } else if self.bits & SIGN64 == 0 {
            rhs.bits & SIGN64 == 0 && ma < mb
        } else if rhs.bits & SIGN64 == 0 {
            ma != 0 || mb != 0
        } else {
            ma > mb
        }
    }

    fn neg(self) -> (r: Self) {
        Float64 { bits: self.bits ^ SIGN64 }
    }

    fn abs(self) -> (r: Self) {
        Float64 { bits: self.bits & !SIGN64 }
    }

    proof fn lemma_nan_is_unordered(a: Self, b: Self) {
    }
}

impl Scalar for Float32 {
    open spec fn lit_spec(l: Lit) -> Self {
        Float32 { bits: lit_bits32(l) }
    }

    open spec fn from_int_spec(n: i128) -> Self {
        Float32 { bits: f32_from_int(n) }
    }

    open spec fn add_spec(self, rhs: Self) -> Self {
        Float32 { bits: f32_add(self.bits, rhs.bits) }
    }

    open spec fn sub_spec(self, rhs: Self) -> Self {
        Float32 { bits: f32_sub(self.bits, rhs.bits) }
    }

    open spec fn mul_spec(self, rhs: Self) -> Self {
        Float32 { bits: f32_mul(self.bits, rhs.bits) }
    }

    open spec fn div_spec(self, rhs: Self) -> Self {
        Float32 { bits: f32_div(self.bits, rhs.bits) }
    }

    open spec fn lt_spec(self, rhs: Self) -> bool {
        lt_bits32(self.bits, rhs.bits)
    }

    open spec fn is_nan_spec(self) -> bool {
        self.bits & !SIGN32 > INFINITY32
    }

    open spec fn neg_spec(self) -> Self {
        Float32 { bits: self.bits ^ SIGN32 }
    }

    open spec fn abs_spec(self) -> Self {
        Float32 { bits: self.bits & !SIGN32 }
    }

    fn lit(l: Lit) -> (r: Self) {
        let bits: u32 = match l {
            Lit::Zero => 0x0000_0000,
            Lit::Half => 0x3f00_0000,
            Lit::One => 0x3f80_0000,
            Lit::OnePointEight => 0x3fe6_6666,
            Lit::Two => 0x4000_0000,
                Lit::Four => 0x4080_0000,
            Lit::Damping => 0xbd00_0000,
            Lit::Tolerance => 0x3586_37bd,
            Lit::RootImag => 0x3f5d_b3d7,
        };
        Float32 { bits }
    }

    fn from_int(n: i128) -> (r: Self) {
        Float32 { bits: int_to_f32(n) }
    }

    fn add(self, rhs: Self) -> (r: Self) {
        Float32 { bits: add32(self.bits, rhs.bits) }
    }

    fn sub(self, rhs: Self) -> (r: Self) {
        Float32 { bits: sub32(self.bits, rhs.bits) }
    }

    fn mul(self, rhs: Self) -> (r: Self) {
        Float32 { bits: mul32(self.bits, rhs.bits) }
    }

    fn div(self, rhs: Self) -> (r: Self) {
        Float32 { bits: div32(self.bits, rhs.bits) }
    }

    fn lt(self, rhs: Self) -> (r: bool) {
        let ma = self.bits & !SIGN32;
        let mb = rhs.bits & !SIGN32;
        if ma > INFINITY32 || mb > INFINITY32 {
            false
        } else if self.bits & SIGN32 == 0 {
            rhs.bits & SIGN32 == 0 && ma < mb
        } else if rhs.bits & SIGN32 == 0 {
            ma != 0 || mb != 0
        } else {
            ma > mb
        }
    }

    fn neg(self) -> (r: Self) {
        Float32 { bits: self.bits ^ SIGN32 }
    }

    fn abs(self) -> (r: Self) {
        Float32 { bits: self.bits & !SIGN32 }
    }

    proof fn lemma_nan_is_unordered(a: Self, b: Self) {
    }
}

} // verus!
