//! Complex numbers over either precision.

use crate::scalar::{Float32, Float64, Lit, Scalar};
use vstd::prelude::*;

verus! {

/// A complex number, by value. Every operation works in the precision of `R` alone.
#[derive(Copy, Debug)]
pub struct Complex<R: Scalar> {
    pub real: R,
    pub img: R,
}

impl<R: Scalar> Clone for Complex<R> {
    fn clone(&self) -> (z: Self)
        ensures
            z == *self,
    {
        *self
    }
}

/// A complex number in double precision.
pub type Complex64 = Complex<Float64>;

/// A complex number in single precision.
pub type Complex32 = Complex<Float32>;

/// The `n`-fold product of `z` with itself, multiplied up from the left:
/// `(1, 0)` for no factor, `z` for one, and `(..((z * z) * z)..) * z` for more.
pub open spec fn repeated_product<R: Scalar>(z: Complex<R>, n: nat) -> Complex<R>
    decreases n,
{
    if n == 0 {
        Complex::<R>::one_spec()
    } else if n == 1 {
        z
    } else {
        repeated_product(z, (n - 1) as nat).mul_spec(z)
    }
}

/// Square-and-multiply: `acc` times the power `power` of `base`, taking the binary digits
/// of `power` from the lowest up.
pub open spec fn power_by_squaring<R: Scalar>(acc: Complex<R>, base: Complex<R>, power: nat) -> Complex<R>
    decreases power,
{
    if power == 0 {
        acc
    } else {
        power_by_squaring(
            if power % 2 == 1 {
                acc.mul_spec(base)
            } else {
                acc
            },
            base.mul_spec(base),
            power / 2,
        )
    }
}

impl<R: Scalar> Complex<R> {
    /// The number `(1, 0)`.
    pub open spec fn one_spec() -> Self {
        Complex { real: R::lit_spec(Lit::One), img: R::lit_spec(Lit::Zero) }
    }

    /// The number `(0, 0)`.
    pub open spec fn zero_spec() -> Self {
        Complex { real: R::lit_spec(Lit::Zero), img: R::lit_spec(Lit::Zero) }
    }

    /// The componentwise sum.
    pub open spec fn add_spec(self, b: Self) -> Self {
        Complex { real: self.real.add_spec(b.real), img: self.img.add_spec(b.img) }
    }

    /// The componentwise difference.
    pub open spec fn sub_spec(self, b: Self) -> Self {
        Complex { real: self.real.sub_spec(b.real), img: self.img.sub_spec(b.img) }
    }

    /// The componentwise negation.
    pub open spec fn neg_spec(self) -> Self {
        Complex { real: self.real.neg_spec(), img: self.img.neg_spec() }
    }

    /// The product `(ac - bd, bc + ad)` of `(a, b)` and `(c, d)`.
    pub open spec fn mul_spec(self, b: Self) -> Self {
        Complex {
            real: self.real.mul_spec(b.real).sub_spec(self.img.mul_spec(b.img)),
            img: self.img.mul_spec(b.real).add_spec(self.real.mul_spec(b.img)),
        }
    }

    /// The quotient: the product with the conjugate of `b`, each component divided by the
    /// squared magnitude of `b`.
    pub open spec fn div_spec(self, b: Self) -> Self {
        let abs = b.abs_sq_spec();
        Complex {
            real: self.real.mul_spec(b.real).add_spec(self.img.mul_spec(b.img)).div_spec(abs),
            img: self.img.mul_spec(b.real).sub_spec(self.real.mul_spec(b.img)).div_spec(abs),
        }
    }

    /// The squared magnitude.
    pub open spec fn abs_sq_spec(self) -> R {
        self.real.mul_spec(self.real).add_spec(self.img.mul_spec(self.img))
    }

    /// The conjugate.
    pub open spec fn conjugate_spec(self) -> Self {
        Complex { real: self.real, img: self.img.neg_spec() }
    }

    /// The power `power` of `self`: the repeated product up to the third power,
    /// square-and-multiply from the fourth on.
    pub open spec fn ipow_spec(self, power: u32) -> Self {
        if power <= 3 {
            repeated_product(self, power as nat)
        } else {
            power_by_squaring(Self::one_spec(), self, power as nat)
        }
    }

    pub fn new(r: R, i: R) -> (z: Self)
        ensures
            z.real == r,
            z.img == i,
    {
        Complex { real: r, img: i }
    }

    /// The number `(1, 0)`.
    pub fn one() -> (z: Self)
        ensures
            z == Self::one_spec(),
    {
        Complex { real: R::lit(Lit::One), img: R::lit(Lit::Zero) }
    }

    /// The number `(0, 0)`.
    pub fn zero() -> (z: Self)
        ensures
            z == Self::zero_spec(),
    {
        Complex { real: R::lit(Lit::Zero), img: R::lit(Lit::Zero) }
    }

    pub fn add(self, b: Self) -> (z: Self)
        ensures
            z == self.add_spec(b),
    {
        Complex { real: self.real.add(b.real), img: self.img.add(b.img) }
    }

    pub fn sub(self, b: Self) -> (z: Self)
        ensures
            z == self.sub_spec(b),
    {
        Complex { real: self.real.sub(b.real), img: self.img.sub(b.img) }
    }

    pub fn neg(self) -> (z: Self)
        ensures
            z == self.neg_spec(),
    {
        Complex { real: self.real.neg(), img: self.img.neg() }
    }

    pub fn mul(self, b: Self) -> (z: Self)
        ensures
            z == self.mul_spec(b),
    {
        Complex {
            real: self.real.mul(b.real).sub(self.img.mul(b.img)),
            img: self.img.mul(b.real).add(self.real.mul(b.img)),
        }
    }

    /// Divides by `b`. A divisor of magnitude zero is not guarded against: the components
    /// of the quotient are then infinities or NaNs, as the division of `R` gives them.
    pub fn div(self, b: Self) -> (z: Self)
        ensures
            z == self.div_spec(b),
    {
        let abs = b.abs_sq();
        Complex {
            real: self.real.mul(b.real).add(self.img.mul(b.img)).div(abs),
            img: self.img.mul(b.real).sub(self.real.mul(b.img)).div(abs),
        }
    }

    /// Adds `b` in place.
    pub fn add_assign(&mut self, b: Self)
        ensures
            *final(self) == old(self).add_spec(b),
    {
        *self = self.add(b);
    }

    /// Subtracts `b` in place.
    pub fn sub_assign(&mut self, b: Self)
        ensures
            *final(self) == old(self).sub_spec(b),
    {
        *self = self.sub(b);
    }

    /// Multiplies by `b` in place.
    pub fn mul_assign(&mut self, b: Self)
        ensures
            *final(self) == old(self).mul_spec(b),
    {
        *self = self.mul(b);
    }

    /// Divides by `b` in place.
    pub fn div_assign(&mut self, b: Self)
        ensures
            *final(self) == old(self).div_spec(b),
    {
        *self = self.div(b);
    }

    pub fn abs_sq(self) -> (m: R)
        ensures
            m == self.abs_sq_spec(),
    {
        self.real.mul(self.real).add(self.img.mul(self.img))
    }

    pub fn conjugate(self) -> (z: Self)
        ensures
            z == self.conjugate_spec(),
    {
        Complex { real: self.real, img: self.img.neg() }
    }

    /// Raises `self` to the power `power`, in a number of multiplications that grows with
    /// the logarithm of `power`.
    pub fn ipow(self, power: u32) -> (z: Self)
        ensures
            z == self.ipow_spec(power),
    {
        proof {
            reveal_with_fuel(repeated_product, 4);
        }
        if power == 0 {
            Self::one()
        } else if power == 1 {
            self
        } else if power == 2 {
            self.mul(self)
        } else if power == 3 {
            self.mul(self).mul(self)
        } else {
            let mut result = Self::one();
            let mut base = self;
            let mut rest: u32 = power;
            while rest > 0
                invariant
                    power_by_squaring(result, base, rest as nat) == power_by_squaring(
                        Self::one_spec(),
                        self,
                        power as nat,
                    ),
                decreases rest,
            {
                if rest & 1 == 1 {
                    result = result.mul(base);
                }
                assert((rest & 1 == 1) == (rest % 2 == 1)) by (bit_vector);
                assert(rest >> 1 == rest / 2) by (bit_vector);
                base = base.mul(base);
                rest = rest >> 1;
            }
            result
        }
    }
}

/// Up to the third power, `ipow` is the repeated product written out.
pub proof fn lemma_ipow_small<R: Scalar>(z: Complex<R>)
    ensures
        z.ipow_spec(0) == Complex::<R>::one_spec(),
        z.ipow_spec(1) == z,
        z.ipow_spec(2) == z.mul_spec(z),
        z.ipow_spec(3) == z.mul_spec(z).mul_spec(z),
{
    reveal_with_fuel(repeated_product, 4);
}

} // verus!
