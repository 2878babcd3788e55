//! Iterating a group of pixels in lockstep, one pixel to a lane.
//!
//! A round compares every lane's magnitude and counter against their limits, which gives
//! the mask of the lanes that go on; then it steps every lane and adds the mask to the
//! counters. A lane that has left the mask stays out of it. The group is done when the mask
//! is empty.

use crate::complex::Complex;
use crate::fractal::kernel::{
    bounded, bounded_spec, defined_for, escape_count, step, step_spec, Powering,
};
use crate::fractal::FractalType;
use crate::scalar::Scalar;
use vstd::prelude::*;

verus! {

/// What one lane of a group stands for while the group runs.
///
/// A lane in the mask has made `round` steps from where it started and is on the way to
/// its final count. A lane out of the mask holds its final count already.
pub open spec fn lane_on_track<R: Scalar>(
    formula: FractalType,
    start: Complex<R>,
    c: Complex<R>,
    cap: u32,
    pow: u32,
    round: u32,
    at: Complex<R>,
    count: u32,
    live: bool,
) -> bool {
    let total = escape_count(formula, Powering::Unrolled, start, c, cap, pow, 0);
    if live {
        count == round && escape_count(formula, Powering::Unrolled, at, c, cap, pow, round) == total
    } else {
        count == total
    }
}

/// Takes the mask of one round: a lane stays in it while its counter is below the cap and
/// its number has not escaped. Returns whether any lane is left in the mask.
fn take_mask<R: Scalar>(
    formula: FractalType,
    at: &Vec<Complex<R>>,
    c: &Vec<Complex<R>>,
    counts: &Vec<u32>,
    live: &mut Vec<bool>,
    cap: u32,
    pow: u32,
    Ghost(start): Ghost<Seq<Complex<R>>>,
    Ghost(round): Ghost<u32>,
) -> (any: bool)
    requires
        at.len() == start.len(),
        c.len() == start.len(),
        counts.len() == start.len(),
        old(live).len() == start.len(),
        forall|l: int|
            0 <= l < start.len() ==> lane_on_track(
                formula,
                start[l],
                #[trigger] c[l],
                cap,
                pow,
                round,
                at[l],
                counts[l],
                old(live)[l],
            ),
    ensures
        final(live).len() == start.len(),
        forall|l: int|
            0 <= l < start.len() ==> lane_on_track(
                formula,
                start[l],
                #[trigger] c[l],
                cap,
                pow,
                round,
                at[l],
                counts[l],
                final(live)[l],
            ),
        forall|l: int|
            0 <= l < start.len() && #[trigger] final(live)[l] ==> round < cap && bounded_spec(at[l]),
        any == exists|l: int| 0 <= l < start.len() && #[trigger] final(live)[l],
{
    let n = live.len();
    let mut any = false;
    let ghost mut seen: int = 0;
    let mut l: usize = 0;
    while l < n
        invariant
            l <= n,
            n == start.len(),
            at.len() == n,
            c.len() == n,
            counts.len() == n,
            live.len() == n,
            forall|k: int|
                0 <= k < n ==> lane_on_track(
                    formula,
                    start[k],
                    #[trigger] c[k],
                    cap,
                    pow,
                    round,
                    at[k],
                    counts[k],
                    live[k],
                ),
            forall|k: int| 0 <= k < l && #[trigger] live[k] ==> round < cap && bounded_spec(at[k]),
            any ==> 0 <= seen < l && live[seen],
            !any ==> forall|k: int| 0 <= k < l ==> !#[trigger] live[k],
        decreases n - l,
    {
        assert(lane_on_track(formula, start[l as int], c[l as int], cap, pow, round, at[l as int], counts[l as int], live[l as int]));
        let stays = live[l] && counts[l] < cap && bounded(at[l]);
        live[l] = stays;
        if stays {
            any = true;
            proof {
                seen = l as int;
            }
        }
        l = l + 1;
    }
    any
}

/// Steps every lane once and adds the mask to the counters.
fn advance<R: Scalar>(
    formula: FractalType,
    at: &mut Vec<Complex<R>>,
    c: &Vec<Complex<R>>,
    counts: &mut Vec<u32>,
    live: &Vec<bool>,
    cap: u32,
    pow: u32,
    Ghost(start): Ghost<Seq<Complex<R>>>,
    Ghost(round): Ghost<u32>,
)
    requires
        defined_for(formula, pow),
        round < cap,
        old(at).len() == start.len(),
        c.len() == start.len(),
        old(counts).len() == start.len(),
        live.len() == start.len(),
        forall|l: int|
            0 <= l < start.len() ==> lane_on_track(
                formula,
                start[l],
                #[trigger] c[l],
                cap,
                pow,
                round,
                old(at)[l],
                old(counts)[l],
                live[l],
            ),
        forall|l: int| 0 <= l < start.len() && #[trigger] live[l] ==> bounded_spec(old(at)[l]),
    ensures
        final(at).len() == start.len(),
        final(counts).len() == start.len(),
        forall|l: int|
            0 <= l < start.len() ==> lane_on_track(
                formula,
                start[l],
                #[trigger] c[l],
                cap,
                pow,
                (round + 1) as u32,
                final(at)[l],
                final(counts)[l],
                live[l],
            ),
{
    let n = at.len();
    let mut l: usize = 0;
    while l < n
        invariant
            l <= n,
            defined_for(formula, pow),
            round < cap,
            n == start.len(),
            at.len() == n,
            c.len() == n,
            counts.len() == n,
            live.len() == n,
            forall|k: int|
                0 <= k < l ==> lane_on_track(
                    formula,
                    start[k],
                    #[trigger] c[k],
                    cap,
                    pow,
                    (round + 1) as u32,
                    at[k],
                    counts[k],
                    live[k],
                ),
            forall|k: int|
                l <= k < n ==> lane_on_track(
                    formula,
                    start[k],
                    #[trigger] c[k],
                    cap,
                    pow,
                    round,
                    at[k],
                    counts[k],
                    live[k],
                ),
            forall|k: int| l <= k < n && #[trigger] live[k] ==> bounded_spec(at[k]),
        decreases n - l,
    {
        assert(lane_on_track(formula, start[l as int], c[l as int], cap, pow, round, at[l as int], counts[l as int], live[l as int]));
        let moved = step(formula, Powering::Unrolled, at[l], c[l], pow);
        at[l] = moved;
        if live[l] {
            counts[l] = counts[l] + 1;
        }
        l = l + 1;
    }
}

/// Runs a group of lanes to its end. Lane `l` starts at `z[l]` with the constant `c[l]`;
/// the result holds in place `l` the count that the lane ends with, which is the count of
/// the same iteration run alone.
pub fn run_group<R: Scalar>(
    formula: FractalType,
    z: Vec<Complex<R>>,
    c: &Vec<Complex<R>>,
    cap: u32,
    pow: u32,
) -> (counts: Vec<u32>)
    requires
        z.len() == c.len(),
        defined_for(formula, pow),
    ensures
        counts.len() == z.len(),
        forall|l: int|
            0 <= l < z.len() ==> #[trigger] counts[l] == escape_count(
                formula,
                Powering::Unrolled,
                z[l],
                c[l],
                cap,
                pow,
                0,
            ),
{
    let ghost start = z@;
    let n = z.len();
    let mut at = z;
    let mut counts: Vec<u32> = Vec::new();
    let mut live: Vec<bool> = Vec::new();
    let mut l: usize = 0;
    while l < n
        invariant
            l <= n,
            counts.len() == l,
            live.len() == l,
            forall|k: int| 0 <= k < l ==> #[trigger] counts[k] == 0 && live[k],
        decreases n - l,
    {
        counts.push(0);
        live.push(true);
        l = l + 1;
    }
    let mut round: u32 = 0;
    let mut any = true;
    while any
        invariant
            defined_for(formula, pow),
            n == start.len(),
            at.len() == n,
            c.len() == n,
            counts.len() == n,
            live.len() == n,
            round <= cap,
            forall|k: int|
                0 <= k < n ==> lane_on_track(
                    formula,
                    start[k],
                    #[trigger] c[k],
                    cap,
                    pow,
                    round,
                    at[k],
                    counts[k],
                    live[k],
                ),
            !any ==> forall|k: int| 0 <= k < n ==> !#[trigger] live[k],
        decreases cap - round + if any { 1int } else { 0int },
    {
        any = take_mask(formula, &at, c, &counts, &mut live, cap, pow, Ghost(start), Ghost(round));
        if any {
            advance(formula, &mut at, c, &mut counts, &live, cap, pow, Ghost(start), Ghost(round));
            round = round + 1;
        }
    }
    assert forall|k: int| 0 <= k < n implies #[trigger] counts[k] == escape_count(
        formula,
        Powering::Unrolled,
        start[k],
        c[k],
        cap,
        pow,
        0,
    ) by {
        assert(lane_on_track(formula, start[k], c[k], cap, pow, round, at[k], counts[k], live[k]));
    }
    counts
}

} // verus!
