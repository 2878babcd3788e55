//! What holds of the iteration counts whatever the arithmetic returns.

use crate::color::Color;
use crate::complex::Complex;
use crate::fractal::kernel::{
    bounded_spec, constant_spec, count_at, escape_count, fold_spec, near_root_spec, newton_count,
    newton_step_spec, power_spec, root_spec, rule_at, start_spec, step_spec, within_spec, Powering,
};
use crate::fractal::{raster_of, Config, FractalType};
use crate::raster::cells;
use crate::scalar::{Lit, Scalar};
use vstd::prelude::*;

verus! {

/// An escape-time count never passes the cap and never falls below the count it started
/// from.
pub proof fn lemma_escape_count_bounded<R: Scalar>(
    formula: FractalType,
    rule: Powering,
    z: Complex<R>,
    c: Complex<R>,
    cap: u32,
    pow: u32,
    n: u32,
)
    requires
        n <= cap,
    ensures
        n <= escape_count(formula, rule, z, c, cap, pow, n) <= cap,
    decreases cap - n,
{
    if n < cap && bounded_spec(z) {
        lemma_escape_count_bounded(
            formula,
            rule,
            step_spec(formula, rule, z, c, pow),
            c,
            cap,
            pow,
            (n + 1) as u32,
        );
    }
}

/// A Newton count never passes the cap and never falls below the count it started from.
pub proof fn lemma_newton_count_bounded<R: Scalar>(
    z: Complex<R>,
    u: Complex<R>,
    cap: u32,
    pow: u32,
    n: u32,
)
    requires
        n <= cap,
    ensures
        n <= newton_count(z, u, cap, pow, n) <= cap,
    decreases cap - n,
{
    if n < cap {
        let next = newton_step_spec(z, u, pow);
        if !near_root_spec(next) {
            lemma_newton_count_bounded(next, u, cap, pow, (n + 1) as u32);
        }
    }
}

/// The iteration count of every pixel lies between 0 and the cap, whatever the formula,
/// the precision and the number of lanes.
pub proof fn lemma_count_within_cap<R: Scalar>(
    formula: FractalType,
    lanes: usize,
    x: usize,
    y: usize,
    cap: u32,
    pow: u32,
    width: usize,
    height: usize,
    xpos: i32,
    ypos: i32,
)
    ensures
        count_at::<R>(formula, lanes, x, y, cap, pow, width, height, xpos, ypos) <= cap,
{
    let rule = rule_at(lanes, x, width);
    let z = start_spec::<R>(formula, x, y, height);
    let c = constant_spec::<R>(formula, x, y, height, xpos, ypos);
    if formula == FractalType::Newton {
        lemma_newton_count_bounded(z, c, cap, pow, 0);
    } else {
        lemma_escape_count_bounded(formula, rule, z, c, cap, pow, 0);
    }
}

/// A number whose squared magnitude is not a number has escaped: an escape-time iteration
/// that stands at it ends there, with the count it has.
pub proof fn lemma_nan_has_escaped<R: Scalar>(
    formula: FractalType,
    rule: Powering,
    z: Complex<R>,
    c: Complex<R>,
    cap: u32,
    pow: u32,
    n: u32,
)
    requires
        z.abs_sq_spec().is_nan_spec(),
    ensures
        !bounded_spec(z),
        escape_count(formula, rule, z, c, cap, pow, n) == n,
{
    R::lemma_nan_is_unordered(z.abs_sq_spec(), R::lit_spec(Lit::Four));
}

/// A number passes the root test of Newton's method against no root from which its
/// difference has a component that is not a number; where that holds of all three roots,
/// the iteration does not stop at it.
pub proof fn lemma_nan_is_near_no_root<R: Scalar>(z: Complex<R>)
    ensures
        forall|k: int|
            z.sub_spec(#[trigger] root_spec::<R>(k)).real.is_nan_spec() || z.sub_spec(
                root_spec::<R>(k),
            ).img.is_nan_spec() ==> !within_spec(z, root_spec::<R>(k)),
        (forall|k: int|
            0 <= k < 3 ==> z.sub_spec(#[trigger] root_spec::<R>(k)).real.is_nan_spec() || z.sub_spec(
                root_spec::<R>(k),
            ).img.is_nan_spec()) ==> !near_root_spec(z),
{
    assert forall|k: int|
        z.sub_spec(#[trigger] root_spec::<R>(k)).real.is_nan_spec() || z.sub_spec(
            root_spec::<R>(k),
        ).img.is_nan_spec() implies !within_spec(z, root_spec::<R>(k)) by {
        let diff = z.sub_spec(root_spec::<R>(k));
        R::lemma_nan_is_unordered(diff.real, R::lit_spec(Lit::Tolerance));
        R::lemma_nan_is_unordered(diff.img, R::lit_spec(Lit::Tolerance));
    }
    if forall|k: int|
        0 <= k < 3 ==> z.sub_spec(#[trigger] root_spec::<R>(k)).real.is_nan_spec() || z.sub_spec(
            root_spec::<R>(k),
        ).img.is_nan_spec() {
        assert(!within_spec(z, root_spec::<R>(0)));
        assert(!within_spec(z, root_spec::<R>(1)));
        assert(!within_spec(z, root_spec::<R>(2)));
    }
}

/// Up to the third power both powering rules give the same number: the logarithmic rule
/// is written out as the repeated product there.
pub proof fn lemma_powering_agrees<R: Scalar>(z: Complex<R>, pow: u32)
    requires
        pow <= 3,
    ensures
        power_spec(Powering::Unrolled, z, pow) == power_spec(Powering::Logarithmic, z, pow),
{
}

/// Up to the third power an iteration ends with the same count under both powering
/// rules.
pub proof fn lemma_escape_count_agrees<R: Scalar>(
    formula: FractalType,
    z: Complex<R>,
    c: Complex<R>,
    cap: u32,
    pow: u32,
    n: u32,
)
    requires
        pow <= 3,
    ensures
        escape_count(formula, Powering::Unrolled, z, c, cap, pow, n) == escape_count(
            formula,
            Powering::Logarithmic,
            z,
            c,
            cap,
            pow,
            n,
        ),
    decreases cap - n,
{
    if n < cap && bounded_spec(z) {
        lemma_powering_agrees(z, pow);
        lemma_powering_agrees(fold_spec(z), pow);
        lemma_escape_count_agrees(
            formula,
            step_spec(formula, Powering::Logarithmic, z, c, pow),
            c,
            cap,
            pow,
            (n + 1) as u32,
        );
    }
}

/// A kernel that works on groups of lanes gives every pixel the count that the kernel
/// without lanes gives it, for every formula and precision, when the power is at most 3.
///
/// The power is restricted because the lockstep loop multiplies the power up factor by
/// factor, while the scalar loop squares from the fourth power on; in floating point
/// these are different numbers.
pub proof fn lemma_lanes_match_scalar<R: Scalar>(
    formula: FractalType,
    lanes: usize,
    x: usize,
    y: usize,
    cap: u32,
    pow: u32,
    width: usize,
    height: usize,
    xpos: i32,
    ypos: i32,
)
    requires
        pow <= 3,
    ensures
        count_at::<R>(formula, lanes, x, y, cap, pow, width, height, xpos, ypos) == count_at::<R>(
            formula,
            1,
            x,
            y,
            cap,
            pow,
            width,
            height,
            xpos,
            ypos,
        ),
{
    let z = start_spec::<R>(formula, x, y, height);
    let c = constant_spec::<R>(formula, x, y, height, xpos, ypos);
    lemma_escape_count_agrees(formula, z, c, cap, pow, 0);
}

/// Two renderings of one configuration with one colour table and one pointer position
/// are the same raster, pixel for pixel: nothing that a render pass leaves behind has a
/// part in the next one.
pub proof fn lemma_redraw_identical(
    config: Config,
    colors: Seq<Color>,
    xpos: i32,
    ypos: i32,
    first: Vec<Vec<Color>>,
    second: Vec<Vec<Color>>,
)
    requires
        raster_of(config, colors, xpos, ypos, first),
        raster_of(config, colors, xpos, ypos, second),
    ensures
        cells(first) == cells(second),
{
    assert forall|y: int| 0 <= y < config.height implies first[y]@ == second[y]@ by {
        assert forall|x: int| 0 <= x < config.width implies first[y]@[x] == second[y]@[x] by {
            assert(first[y][x] == second[y][x]);
        }
        assert(first[y]@ =~= second[y]@);
    }
    assert(cells(first) =~= cells(second));
}

/// The thread count has no part in the raster: two configurations that differ in nothing
/// but the number of threads render, with one colour table and one pointer position, the
/// same raster, pixel for pixel.
pub proof fn lemma_thread_count_irrelevant(
    config: Config,
    threads: Option<u8>,
    colors: Seq<Color>,
    xpos: i32,
    ypos: i32,
    one: Vec<Vec<Color>>,
    other: Vec<Vec<Color>>,
)
    requires
        raster_of(config, colors, xpos, ypos, one),
        raster_of(config.with_threads(threads), colors, xpos, ypos, other),
    ensures
        cells(one) == cells(other),
{
    assert forall|y: int, x: int| 0 <= y < config.height && 0 <= x < config.width implies #[trigger] other[y][x]
        == colors[config.count(x as usize, y as usize, xpos, ypos) as int] by {
        assert(config.with_threads(threads).count(x as usize, y as usize, xpos, ypos) == config.count(
            x as usize,
            y as usize,
            xpos,
            ypos,
        ));
    }
    lemma_redraw_identical(config, colors, xpos, ypos, one, other);
}

} // verus!
