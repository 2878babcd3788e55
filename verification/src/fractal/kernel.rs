//! What a kernel computes at a pixel, and the kernels that compute it.
//!
//! The specification functions come first: the affine map from a pixel to the complex
//! plane, one step of each recurrence, and the iteration count. The executable kernels
//! follow: a scalar one, and one that works on groups of lanes.

use crate::complex::{repeated_product, Complex};
use crate::fractal::FractalType;
use crate::scalar::{Lit, Scalar};
use vstd::prelude::*;

verus! {

/// How a kernel raises a number to the configured power.
#[derive(Clone, Copy, Debug, PartialEq, Eq, Structural)]
pub enum Powering {
    /// By `Complex::ipow`: a logarithmic number of multiplications.
    Logarithmic,
    /// By multiplying with the base again and again, one time less than the power says;
    /// the power 0 is `(1, 0)`.
    Unrolled,
}

/// The power `pow` of `z` under either rule. The power 0 is `(1, 0)` under both.
pub open spec fn power_spec<R: Scalar>(rule: Powering, z: Complex<R>, pow: u32) -> Complex<R> {
    match rule {
        Powering::Logarithmic => z.ipow_spec(pow),
        Powering::Unrolled => repeated_product(z, pow as nat),
    }
}

/// The offsets of the view window: what is subtracted from the scaled column and row.
pub open spec fn offsets(formula: FractalType) -> (Lit, Lit) {
    match formula {
        FractalType::BurningShip => (Lit::Two, Lit::Half),
        _ => (Lit::OnePointEight, Lit::One),
    }
}

/// One coordinate of the affine map: `n / height * 2 - offset`.
pub open spec fn affine_spec<R: Scalar>(n: i128, height: usize, offset: Lit) -> R {
    R::from_int_spec(n).div_spec(R::from_int_spec(height as i128)).mul_spec(
        R::lit_spec(Lit::Two),
    ).sub_spec(R::lit_spec(offset))
}

/// The complex coordinate of the pixel in column `x` and row `y`. The image height scales
/// both axes.
pub open spec fn pixel_spec<R: Scalar>(
    formula: FractalType,
    x: usize,
    y: usize,
    height: usize,
) -> Complex<R> {
    Complex {
        real: affine_spec(x as i128, height, offsets(formula).0),
        img: affine_spec(y as i128, height, offsets(formula).1),
    }
}

/// The complex number that the pointer position stands for: the Julia constant, and the
/// number whose roots the Newton iteration looks for.
pub open spec fn pointer_spec<R: Scalar>(xpos: i32, ypos: i32, height: usize) -> Complex<R> {
    Complex {
        real: affine_spec(xpos as i128, height, Lit::OnePointEight),
        img: affine_spec(ypos as i128, height, Lit::One),
    }
}

/// Where the iteration starts at a pixel.
pub open spec fn start_spec<R: Scalar>(
    formula: FractalType,
    x: usize,
    y: usize,
    height: usize,
) -> Complex<R> {
    match formula {
        FractalType::Mandelbrot | FractalType::BurningShip => Complex::<R>::zero_spec(),
        FractalType::Julia | FractalType::Newton => pixel_spec(formula, x, y, height),
    }
}

/// The constant of the recurrence at a pixel.
pub open spec fn constant_spec<R: Scalar>(
    formula: FractalType,
    x: usize,
    y: usize,
    height: usize,
    xpos: i32,
    ypos: i32,
) -> Complex<R> {
    match formula {
        FractalType::Mandelbrot | FractalType::BurningShip => pixel_spec(formula, x, y, height),
        FractalType::Julia | FractalType::Newton => pointer_spec(xpos, ypos, height),
    }
}

/// The fold of the Burning Ship: the real part made negative, the imaginary part positive.
pub open spec fn fold_spec<R: Scalar>(z: Complex<R>) -> Complex<R> {
    Complex { real: z.real.abs_spec().neg_spec(), img: z.img.abs_spec() }
}

/// The damped Newton step towards a root of `z^pow - u`, for a power of at least 1:
/// `z - ((z^pow - u) / z^(pow - 1) * pow) * damping`.
pub open spec fn newton_step_spec<R: Scalar>(z: Complex<R>, u: Complex<R>, pow: u32) -> Complex<R> {
    let factor = Complex { real: R::from_int_spec(pow as i128), img: R::lit_spec(Lit::Zero) };
    let damping = Complex { real: R::lit_spec(Lit::Damping), img: R::lit_spec(Lit::Zero) };
    z.sub_spec(
        z.ipow_spec(pow).sub_spec(u).div_spec(z.ipow_spec((pow - 1) as u32)).mul_spec(factor).mul_spec(
            damping,
        ),
    )
}

/// Whether the recurrence is defined for a power: Newton's method divides by the power
/// before and so needs a power of at least 1; the other formulas take every power.
pub open spec fn defined_for(formula: FractalType, pow: u32) -> bool {
    formula == FractalType::Newton ==> pow >= 1
}

/// One step of the recurrence.
pub open spec fn step_spec<R: Scalar>(
    formula: FractalType,
    rule: Powering,
    z: Complex<R>,
    c: Complex<R>,
    pow: u32,
) -> Complex<R> {
    match formula {
        FractalType::Mandelbrot | FractalType::Julia => power_spec(rule, z, pow).add_spec(c),
        FractalType::BurningShip => power_spec(rule, fold_spec(z), pow).add_spec(c),
        FractalType::Newton => newton_step_spec(z, c, pow),
    }
}

/// Whether `z` has not escaped: its squared magnitude is less than 4. A magnitude that is
/// not a number has escaped.
pub open spec fn bounded_spec<R: Scalar>(z: Complex<R>) -> bool {
    z.abs_sq_spec().lt_spec(R::lit_spec(Lit::Four))
}

/// The three cube roots of unity.
pub open spec fn root_spec<R: Scalar>(k: int) -> Complex<R> {
    if k == 0 {
        Complex { real: R::lit_spec(Lit::One), img: R::lit_spec(Lit::Zero) }
    } else if k == 1 {
        Complex { real: R::lit_spec(Lit::Half).neg_spec(), img: R::lit_spec(Lit::RootImag) }
    } else {
        Complex {
            real: R::lit_spec(Lit::Half).neg_spec(),
            img: R::lit_spec(Lit::RootImag).neg_spec(),
        }
    }
}

/// Whether both components of `z - root` are less than the tolerance. The differences are
/// taken as they are, not by magnitude.
pub open spec fn within_spec<R: Scalar>(z: Complex<R>, root: Complex<R>) -> bool {
    let diff = z.sub_spec(root);
    diff.real.lt_spec(R::lit_spec(Lit::Tolerance)) && diff.img.lt_spec(R::lit_spec(Lit::Tolerance))
}

/// Whether `z` passes the proximity test for one of the three cube roots of unity.
pub open spec fn near_root_spec<R: Scalar>(z: Complex<R>) -> bool {
    within_spec(z, root_spec(0)) || within_spec(z, root_spec(1)) || within_spec(z, root_spec(2))
}

/// The count that an escape-time iteration ends with, when it stands at `z` with count `n`:
/// it goes on while the count is below the cap and `z` has not escaped.
pub open spec fn escape_count<R: Scalar>(
    formula: FractalType,
    rule: Powering,
    z: Complex<R>,
    c: Complex<R>,
    cap: u32,
    pow: u32,
    n: u32,
) -> u32
    decreases cap - n,
{
    if n < cap && bounded_spec(z) {
        escape_count(formula, rule, step_spec(formula, rule, z, c, pow), c, cap, pow, (n + 1) as u32)
    } else {
        n
    }
}

/// The count that a Newton iteration ends with, when it stands at `z` with count `n`: it
/// steps until the cap, and stops early after a step that lands near a root.
pub open spec fn newton_count<R: Scalar>(z: Complex<R>, u: Complex<R>, cap: u32, pow: u32, n: u32) -> u32
    decreases cap - n,
{
    if n < cap {
        let next = newton_step_spec(z, u, pow);
        if near_root_spec(next) {
            (n + 1) as u32
        } else {
            newton_count(next, u, cap, pow, (n + 1) as u32)
        }
    } else {
        n
    }
}

/// The iteration count of a whole run from `z` with constant `c`.
pub open spec fn iterations_spec<R: Scalar>(
    formula: FractalType,
    rule: Powering,
    z: Complex<R>,
    c: Complex<R>,
    cap: u32,
    pow: u32,
) -> u32 {
    match formula {
        FractalType::Newton => newton_count(z, c, cap, pow, 0),
        _ => escape_count(formula, rule, z, c, cap, pow, 0),
    }
}

/// The powering rule at column `x` of an image `width` wide, for a kernel that works on
/// groups of `lanes` pixels: unrolled inside the groups, logarithmic in the columns that
/// are left over, and everywhere for a kernel without lanes.
pub open spec fn rule_at(lanes: usize, x: usize, width: usize) -> Powering {
    if lanes > 1 && x < width - width % lanes {
        Powering::Unrolled
    } else {
        Powering::Logarithmic
    }
}

/// The iteration count at the pixel in column `x` and row `y`.
pub open spec fn count_at<R: Scalar>(
    formula: FractalType,
    lanes: usize,
    x: usize,
    y: usize,
    cap: u32,
    pow: u32,
    width: usize,
    height: usize,
    xpos: i32,
    ypos: i32,
) -> u32 {
    iterations_spec::<R>(
        formula,
        rule_at(lanes, x, width),
        start_spec(formula, x, y, height),
        constant_spec(formula, x, y, height, xpos, ypos),
        cap,
        pow,
    )
}

/// Raises `z` to the power `pow` under the given rule.
pub fn power<R: Scalar>(rule: Powering, z: Complex<R>, pow: u32) -> (r: Complex<R>)
    ensures
        r == power_spec(rule, z, pow),
{
    match rule {
        Powering::Logarithmic => z.ipow(pow),
        Powering::Unrolled => {
            if pow == 0 {
                return Complex::one();
            }
            let mut acc = z;
            let mut i: u32 = 1;
            while i < pow
                invariant
                    1 <= i <= pow,
                    acc == repeated_product(z, i as nat),
                decreases pow - i,
            {
                acc = acc.mul(z);
                i = i + 1;
            }
            acc
        },
    }
}

/// Maps one pixel or pointer coordinate to the complex plane.
pub fn affine<R: Scalar>(n: i128, height: usize, offset: Lit) -> (r: R)
    ensures
        r == affine_spec::<R>(n, height, offset),
{
    R::from_int(n).div(R::from_int(height as i128)).mul(R::lit(Lit::Two)).sub(R::lit(offset))
}

/// The complex coordinate of a pixel.
pub fn pixel<R: Scalar>(formula: FractalType, x: usize, y: usize, height: usize) -> (r: Complex<R>)
    ensures
        r == pixel_spec::<R>(formula, x, y, height),
{
    match formula {
        FractalType::BurningShip => Complex::new(
            affine(x as i128, height, Lit::Two),
            affine(y as i128, height, Lit::Half),
        ),
        _ => Complex::new(
            affine(x as i128, height, Lit::OnePointEight),
            affine(y as i128, height, Lit::One),
        ),
    }
}

/// The complex number that the pointer position stands for.
pub fn pointer<R: Scalar>(xpos: i32, ypos: i32, height: usize) -> (r: Complex<R>)
    ensures
        r == pointer_spec::<R>(xpos, ypos, height),
{
    Complex::new(
        affine(xpos as i128, height, Lit::OnePointEight),
        affine(ypos as i128, height, Lit::One),
    )
}

/// Where the iteration starts at a pixel.
pub fn start<R: Scalar>(formula: FractalType, x: usize, y: usize, height: usize) -> (r: Complex<R>)
    ensures
        r == start_spec::<R>(formula, x, y, height),
{
    match formula {
        FractalType::Mandelbrot | FractalType::BurningShip => Complex::zero(),
        FractalType::Julia | FractalType::Newton => pixel(formula, x, y, height),
    }
}

/// The constant of the recurrence at a pixel: the pixel itself for the Mandelbrot set and
/// the Burning Ship, and `at_pointer`, the number that the pointer position stands for,
/// for the Julia sets and for Newton's method.
pub fn constant<R: Scalar>(
    formula: FractalType,
    x: usize,
    y: usize,
    height: usize,
    at_pointer: Complex<R>,
) -> (r: Complex<R>)
    ensures
        r == match formula {
            FractalType::Mandelbrot | FractalType::BurningShip => pixel_spec::<R>(formula, x, y, height),
            FractalType::Julia | FractalType::Newton => at_pointer,
        },
{
    match formula {
        FractalType::Mandelbrot | FractalType::BurningShip => pixel(formula, x, y, height),
        FractalType::Julia | FractalType::Newton => at_pointer,
    }
}

/// Folds `z` as the Burning Ship does before it takes the power.
pub fn fold<R: Scalar>(z: Complex<R>) -> (r: Complex<R>)
    ensures
        r == fold_spec(z),
{
    Complex::new(z.real.abs().neg(), z.img.abs())
}

/// One damped Newton step, for a power of at least 1.
pub fn newton_step<R: Scalar>(z: Complex<R>, u: Complex<R>, pow: u32) -> (r: Complex<R>)
    requires
        pow >= 1,
    ensures
        r == newton_step_spec(z, u, pow),
{
    let factor = Complex::new(R::from_int(pow as i128), R::lit(Lit::Zero));
    let damping = Complex::new(R::lit(Lit::Damping), R::lit(Lit::Zero));
    z.sub(z.ipow(pow).sub(u).div(z.ipow(pow - 1)).mul(factor).mul(damping))
}

/// One step of the recurrence.
pub fn step<R: Scalar>(
    formula: FractalType,
    rule: Powering,
    z: Complex<R>,
    c: Complex<R>,
    pow: u32,
) -> (r: Complex<R>)
    requires
        defined_for(formula, pow),
    ensures
        r == step_spec(formula, rule, z, c, pow),
{
    match formula {
        FractalType::Mandelbrot | FractalType::Julia => power(rule, z, pow).add(c),
        FractalType::BurningShip => power(rule, fold(z), pow).add(c),
        FractalType::Newton => newton_step(z, c, pow),
    }
}

/// Whether `z` has not escaped.
pub fn bounded<R: Scalar>(z: Complex<R>) -> (r: bool)
    ensures
        r == bounded_spec(z),
{
    z.abs_sq().lt(R::lit(Lit::Four))
}

/// One of the three cube roots of unity.
pub fn root<R: Scalar>(k: usize) -> (r: Complex<R>)
    ensures
        r == root_spec::<R>(k as int),
{
    if k == 0 {
        Complex::new(R::lit(Lit::One), R::lit(Lit::Zero))
    } else if k == 1 {
        Complex::new(R::lit(Lit::Half).neg(), R::lit(Lit::RootImag))
    } else {
        Complex::new(R::lit(Lit::Half).neg(), R::lit(Lit::RootImag).neg())
    }
}

/// The proximity test of the Newton iteration against one root.
pub fn within<R: Scalar>(z: Complex<R>, root: Complex<R>) -> (r: bool)
    ensures
        r == within_spec(z, root),
{
    let diff = z.sub(root);
    diff.real.lt(R::lit(Lit::Tolerance)) && diff.img.lt(R::lit(Lit::Tolerance))
}

/// The proximity test of the Newton iteration against all three roots.
pub fn near_root<R: Scalar>(z: Complex<R>) -> (r: bool)
    ensures
        r == near_root_spec(z),
{
    within(z, root(0)) || within(z, root(1)) || within(z, root(2))
}

/// Runs one iteration from `z` with constant `c` to its end and returns the count. Newton's
/// method needs a power of at least 1: its step divides by the power before.
pub fn iterate<R: Scalar>(
    formula: FractalType,
    rule: Powering,
    z: Complex<R>,
    c: Complex<R>,
    cap: u32,
    pow: u32,
) -> (n: u32)
    requires
        defined_for(formula, pow),
    ensures
        n == iterations_spec(formula, rule, z, c, cap, pow),
        n <= cap,
{
    let mut at = z;
    let mut count: u32 = 0;
    match formula {
        FractalType::Newton => {
            let mut landed = false;
            while count < cap && !landed
                invariant
                    count <= cap,
                    pow >= 1,
                    landed ==> newton_count(z, c, cap, pow, 0) == count,
                    !landed ==> newton_count(z, c, cap, pow, 0) == newton_count(at, c, cap, pow, count),
                decreases cap - count + if landed { 0int } else { 1int },
            {
                at = newton_step(at, c, pow);
                count = count + 1;
                landed = near_root(at);
            }
            count
        },
        _ => {
            while count < cap && bounded(at)
                invariant
                    count <= cap,
                    formula != FractalType::Newton,
                    escape_count(formula, rule, z, c, cap, pow, 0) == escape_count(
                        formula,
                        rule,
                        at,
                        c,
                        cap,
                        pow,
                        count,
                    ),
                decreases cap - count,
            {
                at = step(formula, rule, at, c, pow);
                count = count + 1;
            }
            count
        },
    }
}

} // verus!
