//! The Burning Ship: `z` is folded to `(-|re|, |im|)` before `z = z^pow + c`.

use crate::fractal::fill::{fill_band, filled, fits};
use crate::fractal::{Block, FractalType, InstructionSet, Kernel, Precision};
use crate::scalar::{Float32, Float64};
use vstd::prelude::*;

verus! {

/// Selects the Burning Ship kernel for a precision and an instruction set.
pub fn fn_(prec: Precision, ins: InstructionSet) -> (kernel: Kernel)
    ensures
        kernel == (Kernel { formula: FractalType::BurningShip, precision: prec, iset: ins }),
{
    Kernel { formula: FractalType::BurningShip, precision: prec, iset: ins }
}

/// Fills a band with the Burning Ship iteration in double precision, one pixel at a time.
pub fn burning_ship(
    hstart: usize,
    hend: usize,
    max_iterations: u32,
    pow: u32,
    width: usize,
    height: usize,
    block: &mut Vec<Vec<u32>>,
    xpos: i32,
    ypos: i32,
) -> (done: Block)
    requires
        fits(*old(block), hstart, hend, width),
    ensures
        done == (hstart, hend),
        filled::<Float64>(
            FractalType::BurningShip,
            1,
            hstart,
            hend,
            max_iterations,
            pow,
            width,
            height,
            xpos,
            ypos,
            *old(block),
            *final(block),
        ),
{
    fill_band::<Float64>(
        FractalType::BurningShip,
        1,
        hstart,
        hend,
        max_iterations,
        pow,
        width,
        height,
        block,
        xpos,
        ypos,
    )
}

/// Fills a band with the Burning Ship iteration in double precision, in groups of 2 lanes.
pub fn burning_ship_simd(
    hstart: usize,
    hend: usize,
    max_iterations: u32,
    pow: u32,
    width: usize,
    height: usize,
    block: &mut Vec<Vec<u32>>,
    xpos: i32,
    ypos: i32,
) -> (done: Block)
    requires
        fits(*old(block), hstart, hend, width),
    ensures
        done == (hstart, hend),
        filled::<Float64>(
            FractalType::BurningShip,
            2,
            hstart,
            hend,
            max_iterations,
            pow,
            width,
            height,
            xpos,
            ypos,
            *old(block),
            *final(block),
        ),
{
    fill_band::<Float64>(
        FractalType::BurningShip,
        2,
        hstart,
        hend,
        max_iterations,
        pow,
        width,
        height,
        block,
        xpos,
        ypos,
    )
}

/// Fills a band with the Burning Ship iteration in double precision, in groups of 4 lanes.
pub fn burning_ship_simd256(
    hstart: usize,
    hend: usize,
    max_iterations: u32,
    pow: u32,
    width: usize,
    height: usize,
    block: &mut Vec<Vec<u32>>,
    xpos: i32,
    ypos: i32,
) -> (done: Block)
    requires
        fits(*old(block), hstart, hend, width),
    ensures
        done == (hstart, hend),
        filled::<Float64>(
            FractalType::BurningShip,
            4,
            hstart,
            hend,
            max_iterations,
            pow,
            width,
            height,
            xpos,
            ypos,
            *old(block),
            *final(block),
        ),
{
    fill_band::<Float64>(
        FractalType::BurningShip,
        4,
        hstart,
        hend,
        max_iterations,
        pow,
        width,
        height,
        block,
        xpos,
        ypos,
    )
}

/// Fills a band with the Burning Ship iteration in single precision, one pixel at a time.
pub fn burning_shipf32(
    hstart: usize,
    hend: usize,
    max_iterations: u32,
    pow: u32,
    width: usize,
    height: usize,
    block: &mut Vec<Vec<u32>>,
    xpos: i32,
    ypos: i32,
) -> (done: Block)
    requires
        fits(*old(block), hstart, hend, width),
    ensures
        done == (hstart, hend),
        filled::<Float32>(
            FractalType::BurningShip,
            1,
            hstart,
            hend,
            max_iterations,
            pow,
            width,
            height,
            xpos,
            ypos,
            *old(block),
            *final(block),
        ),
{
    fill_band::<Float32>(
        FractalType::BurningShip,
        1,
        hstart,
        hend,
        max_iterations,
        pow,
        width,
        height,
        block,
        xpos,
        ypos,
    )
}

/// Fills a band with the Burning Ship iteration in single precision, in groups of 4 lanes.
pub fn burning_shipf32_simd(
    hstart: usize,
    hend: usize,
    max_iterations: u32,
    pow: u32,
    width: usize,
    height: usize,
    block: &mut Vec<Vec<u32>>,
    xpos: i32,
    ypos: i32,
) -> (done: Block)
    requires
        fits(*old(block), hstart, hend, width),
    ensures
        done == (hstart, hend),
        filled::<Float32>(
            FractalType::BurningShip,
            4,
            hstart,
            hend,
            max_iterations,
            pow,
            width,
            height,
            xpos,
            ypos,
            *old(block),
            *final(block),
        ),
{
    fill_band::<Float32>(
        FractalType::BurningShip,
        4,
        hstart,
        hend,
        max_iterations,
        pow,
        width,
        height,
        block,
        xpos,
        ypos,
    )
}

/// Fills a band with the Burning Ship iteration in single precision, in groups of 8 lanes.
pub fn burning_shipf32_simd256(
    hstart: usize,
    hend: usize,
    max_iterations: u32,
    pow: u32,
    width: usize,
    height: usize,
    block: &mut Vec<Vec<u32>>,
    xpos: i32,
    ypos: i32,
) -> (done: Block)
    requires
        fits(*old(block), hstart, hend, width),
    ensures
        done == (hstart, hend),
        filled::<Float32>(
            FractalType::BurningShip,
            8,
            hstart,
            hend,
            max_iterations,
            pow,
            width,
            height,
            xpos,
            ypos,
            *old(block),
            *final(block),
        ),
{
    fill_band::<Float32>(
        FractalType::BurningShip,
        8,
        hstart,
        hend,
        max_iterations,
        pow,
        width,
        height,
        block,
        xpos,
        ypos,
    )
}

} // verus!
