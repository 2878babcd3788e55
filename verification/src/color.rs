//! Colours and the table that maps an iteration count to a colour.
//!
//! The table for an iteration cap has one entry for every count from 0 to the cap. The
//! last entry is the colour of the points that never escaped.

use crate::fractal::kernel::count_at;
use crate::fractal::laws::lemma_count_within_cap;
use crate::fractal::FractalType;
use crate::scalar::Scalar;
use vstd::prelude::*;

verus! {

/// An RGB triple.
#[derive(Clone, Copy, Debug, PartialEq, Eq, Structural)]
pub struct Color {
    pub r: u8,
    pub g: u8,
    pub b: u8,
}

/// Whether `colors` is a table for the iteration cap `cap`: one entry for each count from
/// 0 to `cap`.
pub open spec fn table_for(colors: Seq<Color>, cap: u32) -> bool {
    colors.len() == cap + 1
}

/// The colour of an iteration count.
pub fn lookup(colors: &Vec<Color>, count: u32) -> (color: Color)
    requires
        count < colors.len(),
    ensures
        color == colors[count as int],
{
    colors[count as usize]
}

/// The lookup is total: in a table for the cap, the count of every pixel has an entry,
/// whatever the formula, the precision and the number of lanes; and a count equal to the
/// cap has the last entry.
pub proof fn lemma_lookup_total<R: Scalar>(
    colors: Seq<Color>,
    formula: FractalType,
    lanes: usize,
    x: usize,
    y: usize,
    cap: u32,
    pow: u32,
    width: usize,
    height: usize,
    xpos: i32,
    ypos: i32,
)
    requires
        table_for(colors, cap),
    ensures
        0 <= count_at::<R>(formula, lanes, x, y, cap, pow, width, height, xpos, ypos) < colors.len(),
        count_at::<R>(formula, lanes, x, y, cap, pow, width, height, xpos, ypos) == cap
            ==> colors[count_at::<R>(formula, lanes, x, y, cap, pow, width, height, xpos, ypos) as int]
            == colors.last(),
{
    lemma_count_within_cap::<R>(formula, lanes, x, y, cap, pow, width, height, xpos, ypos);
}

} // verus!
