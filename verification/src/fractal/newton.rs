//! Newton's method for the roots of `z^pow - u`, where `u` is the number under the pointer.

use crate::fractal::fill::{fill_band, filled, fits};
use crate::fractal::{Block, FractalType};
use crate::scalar::Float32;
use vstd::prelude::*;

verus! {

/// Fills a band with the damped Newton iteration in single precision, one pixel at a time.
/// The power must be at least 1: the step divides by the power before.
pub fn newton(
    hstart: usize,
    hend: usize,
    max_iterations: u32,
    pow: u32,
    width: usize,
    height: usize,
    block: &mut Vec<Vec<u32>>,
    xpos: i32,
    ypos: i32,
) -> (done: Block)
    requires
        pow >= 1,
        fits(*old(block), hstart, hend, width),
    ensures
        done == (hstart, hend),
        filled::<Float32>(
            FractalType::Newton,
            1,
            hstart,
            hend,
            max_iterations,
            pow,
            width,
            height,
            xpos,
            ypos,
            *old(block),
            *final(block),
        ),
{
    fill_band::<Float32>(
        FractalType::Newton,
        1,
        hstart,
        hend,
        max_iterations,
        pow,
        width,
        height,
        block,
        xpos,
        ypos,
    )
}

} // verus!
