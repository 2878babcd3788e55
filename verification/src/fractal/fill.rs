//! Filling a band of rows with iteration counts.

use crate::complex::Complex;
use crate::fractal::kernel::{
    constant, constant_spec, count_at, defined_for, iterate, pointer, pointer_spec, start,
    start_spec, Powering,
};
use crate::fractal::lanes::run_group;
use crate::fractal::FractalType;
use crate::scalar::Scalar;
use vstd::arithmetic::div_mod::lemma_fundamental_div_mod;
use vstd::prelude::*;

verus! {

/// Whether `block` has room for the rows `hstart..hend` of an image `width` wide: a row for
/// each, and in each of them a cell for every column. An empty range needs no room.
pub open spec fn fits(block: Vec<Vec<u32>>, hstart: usize, hend: usize, width: usize) -> bool {
    &&& block.len() >= hend - hstart
    &&& forall|r: int| 0 <= r < hend - hstart ==> (#[trigger] block[r]).len() >= width
}

/// How far a kernel has come in a band. `now` has the shape of `before`. The cells of the
/// first `rows` rows of the band, and the first `cols` cells of the row after them, hold
/// the iteration count of their pixel; every other cell is as it was. Local row `r` is the
/// image row `hstart + r`.
pub open spec fn filled_to<R: Scalar>(
    formula: FractalType,
    lanes: usize,
    hstart: usize,
    rows: int,
    cols: int,
    cap: u32,
    pow: u32,
    width: usize,
    height: usize,
    xpos: i32,
    ypos: i32,
    before: Vec<Vec<u32>>,
    now: Vec<Vec<u32>>,
) -> bool {
    &&& now.len() == before.len()
    &&& forall|r: int| 0 <= r < before.len() ==> (#[trigger] now[r]).len() == before[r].len()
    &&& forall|r: int, c: int|
        0 <= r < before.len() && 0 <= c < before[r].len() ==> #[trigger] now[r][c] == if (r < rows
            && c < width) || (r == rows && c < cols) {
            count_at::<R>(
                formula,
                lanes,
                c as usize,
                (hstart + r) as usize,
                cap,
                pow,
                width,
                height,
                xpos,
                ypos,
            )
        } else {
            before[r][c]
        }
}

/// What a kernel leaves behind: the band `hstart..hend` is filled, nothing else has changed.
pub open spec fn filled<R: Scalar>(
    formula: FractalType,
    lanes: usize,
    hstart: usize,
    hend: usize,
    cap: u32,
    pow: u32,
    width: usize,
    height: usize,
    xpos: i32,
    ypos: i32,
    before: Vec<Vec<u32>>,
    after: Vec<Vec<u32>>,
) -> bool {
    filled_to::<R>(
        formula,
        lanes,
        hstart,
        hend - hstart,
        0,
        cap,
        pow,
        width,
        height,
        xpos,
        ypos,
        before,
        after,
    )
}

/// Fills the columns `from..width` of the image row `y` one pixel at a time.
fn fill_columns<R: Scalar>(
    formula: FractalType,
    lanes: usize,
    from: usize,
    hstart: usize,
    y: usize,
    cap: u32,
    pow: u32,
    width: usize,
    height: usize,
    block: &mut Vec<Vec<u32>>,
    xpos: i32,
    ypos: i32,
    Ghost(before): Ghost<Vec<Vec<u32>>>,
)
    requires
        defined_for(formula, pow),
        hstart <= y,
        y - hstart < old(block).len(),
        old(block)[y - hstart].len() >= width,
        from <= width,
        formula == FractalType::Newton || lanes <= 1 || from >= width - width % lanes,
        filled_to::<R>(
            formula,
            lanes,
            hstart,
            y - hstart,
            from as int,
            cap,
            pow,
            width,
            height,
            xpos,
            ypos,
            before,
            *old(block),
        ),
    ensures
        filled_to::<R>(
            formula,
            lanes,
            hstart,
            y - hstart + 1,
            0,
            cap,
            pow,
            width,
            height,
            xpos,
            ypos,
            before,
            *final(block),
        ),
{
    let at_pointer = pointer::<R>(xpos, ypos, height);
    let mut x = from;
    while x < width
        invariant
            defined_for(formula, pow),
            from <= x <= width,
            hstart <= y,
            y - hstart < block.len(),
            block[y - hstart].len() >= width,
            formula == FractalType::Newton || lanes <= 1 || from >= width - width % lanes,
            at_pointer == pointer_spec::<R>(xpos, ypos, height),
            filled_to::<R>(
                formula,
                lanes,
                hstart,
                y - hstart,
                x as int,
                cap,
                pow,
                width,
                height,
                xpos,
                ypos,
                before,
                *block,
            ),
        decreases width - x,
    {
        let z = start::<R>(formula, x, y, height);
        let c = constant::<R>(formula, x, y, height, at_pointer);
        let n = iterate(formula, Powering::Logarithmic, z, c, cap, pow);
        assert(n == count_at::<R>(formula, lanes, x, y, cap, pow, width, height, xpos, ypos));
        block[y - hstart][x] = n;
        x = x + 1;
    }
}

/// The column that lane `l` of a group of `lanes` pixels holds, when the group begins at
/// column `x`: the lanes hold the columns in reverse, the last lane the first column.
pub open spec fn lane_column(x: usize, lanes: usize, l: int) -> int {
    x + (lanes - 1 - l)
}

/// Loads a group: the starting numbers and the constants of the pixels of row `y` from
/// column `x` on, one to a lane, in reverse order.
fn load_group<R: Scalar>(
    formula: FractalType,
    lanes: usize,
    x: usize,
    y: usize,
    height: usize,
    xpos: i32,
    ypos: i32,
    at_pointer: Complex<R>,
) -> (group: (Vec<Complex<R>>, Vec<Complex<R>>))
    requires
        x + lanes <= usize::MAX,
        at_pointer == pointer_spec::<R>(xpos, ypos, height),
    ensures
        group.0.len() == lanes,
        group.1.len() == lanes,
        forall|l: int|
            0 <= l < lanes ==> #[trigger] group.0[l] == start_spec::<R>(
                formula,
                lane_column(x, lanes, l) as usize,
                y,
                height,
            ),
        forall|l: int|
            0 <= l < lanes ==> #[trigger] group.1[l] == constant_spec::<R>(
                formula,
                lane_column(x, lanes, l) as usize,
                y,
                height,
                xpos,
                ypos,
            ),
{
    let mut z: Vec<Complex<R>> = Vec::new();
    let mut c: Vec<Complex<R>> = Vec::new();
    let mut l: usize = 0;
    while l < lanes
        invariant
            l <= lanes,
            x + lanes <= usize::MAX,
            at_pointer == pointer_spec::<R>(xpos, ypos, height),
            z.len() == l,
            c.len() == l,
            forall|k: int|
                0 <= k < l ==> #[trigger] z[k] == start_spec::<R>(
                    formula,
                    lane_column(x, lanes, k) as usize,
                    y,
                    height,
                ),
            forall|k: int|
                0 <= k < l ==> #[trigger] c[k] == constant_spec::<R>(
                    formula,
                    lane_column(x, lanes, k) as usize,
                    y,
                    height,
                    xpos,
                    ypos,
                ),
        decreases lanes - l,
    {
        let column = x + (lanes - 1 - l);
        z.push(start::<R>(formula, column, y, height));
        c.push(constant::<R>(formula, column, y, height, at_pointer));
        l = l + 1;
    }
    (z, c)
}

/// Stores the counts of a group into local row `row` from column `x` on: the count of the
/// last lane goes to the first column.
fn store_group(block: &mut Vec<Vec<u32>>, row: usize, x: usize, counts: &Vec<u32>)
    requires
        row < old(block).len(),
        x + counts.len() <= old(block)[row as int].len(),
    ensures
        final(block).len() == old(block).len(),
        forall|r: int| 0 <= r < old(block).len() ==> (#[trigger] final(block)[r]).len() == old(block)[r].len(),
        forall|r: int, c: int|
            0 <= r < old(block).len() && 0 <= c < old(block)[r].len() ==> #[trigger] final(block)[r][c] == if r
                == row && x <= c < x + counts.len() {
                counts[counts.len() - 1 - (c - x)]
            } else {
                old(block)[r][c]
            },
{
    let lanes = counts.len();
    let mut j: usize = 0;
    while j < lanes
        invariant
            j <= lanes,
            lanes == counts.len(),
            row < block.len(),
            x + lanes <= block[row as int].len(),
            block.len() == old(block).len(),
            forall|r: int| 0 <= r < old(block).len() ==> (#[trigger] block[r]).len() == old(block)[r].len(),
            forall|r: int, c: int|
                0 <= r < old(block).len() && 0 <= c < old(block)[r].len() ==> #[trigger] block[r][c] == if r
                    == row && x <= c < x + j {
                    counts[lanes - 1 - (c - x)]
                } else {
                    old(block)[r][c]
                },
        decreases lanes - j,
    {
        block[row][x + j] = counts[lanes - 1 - j];
        j = j + 1;
    }
}

/// Fills the rows `hstart..hend` of the image into `block`, whose first row is row `hstart`.
///
/// With more than one lane the columns are taken in groups of `lanes`, as many as fit in
/// the width, and each group is iterated in lockstep; the columns left over are done one
/// at a time. The Newton iteration has no lockstep form and is always done one pixel at a
/// time; it needs a power of at least 1. Returns the rows that were filled.
pub fn fill_band<R: Scalar>(
    formula: FractalType,
    lanes: usize,
    hstart: usize,
    hend: usize,
    cap: u32,
    pow: u32,
    width: usize,
    height: usize,
    block: &mut Vec<Vec<u32>>,
    xpos: i32,
    ypos: i32,
) -> (done: (usize, usize))
    requires
        lanes >= 1,
        defined_for(formula, pow),
        fits(*old(block), hstart, hend, width),
    ensures
        done == (hstart, hend),
        filled::<R>(
            formula,
            lanes,
            hstart,
            hend,
            cap,
            pow,
            width,
            height,
            xpos,
            ypos,
            *old(block),
            *final(block),
        ),
{
    if hstart >= hend {
        return (hstart, hend);
    }
    let at_pointer = pointer::<R>(xpos, ypos, height);
    let grouped = lanes > 1 && !matches!(formula, FractalType::Newton);
    proof {
        lemma_fundamental_div_mod(width as int, lanes as int);
    }
    let groups: usize = if grouped {
        width / lanes
    } else {
        0
    };
    let mut y = hstart;
    while y < hend
        invariant
            hstart <= y <= hend,
            lanes >= 1,
            defined_for(formula, pow),
            grouped == (lanes > 1 && formula != FractalType::Newton),
            grouped ==> groups == width / lanes,
            !grouped ==> groups == 0,
            width == lanes * (width / lanes) + width % lanes,
            at_pointer == pointer_spec::<R>(xpos, ypos, height),
            fits(*old(block), hstart, hend, width),
            fits(*block, hstart, hend, width),
            filled_to::<R>(
                formula,
                lanes,
                hstart,
                y - hstart,
                0,
                cap,
                pow,
                width,
                height,
                xpos,
                ypos,
                *old(block),
                *block,
            ),
        decreases hend - y,
    {
        let mut g: usize = 0;
        let mut x: usize = 0;
        while g < groups
            invariant
                hstart <= y < hend,
                lanes > 1 || groups == 0,
                defined_for(formula, pow),
                grouped == (lanes > 1 && formula != FractalType::Newton),
                grouped ==> groups == width / lanes,
                !grouped ==> groups == 0,
                width == lanes * (width / lanes) + width % lanes,
                g <= groups,
                x == g * lanes,
                x <= width - width % lanes,
                at_pointer == pointer_spec::<R>(xpos, ypos, height),
                fits(*old(block), hstart, hend, width),
                fits(*block, hstart, hend, width),
                filled_to::<R>(
                    formula,
                    lanes,
                    hstart,
                    y - hstart,
                    x as int,
                    cap,
                    pow,
                    width,
                    height,
                    xpos,
                    ypos,
                    *old(block),
                    *block,
                ),
            decreases groups - g,
        {
            assert((g + 1) * lanes <= lanes * (width / lanes) && (g + 1) * lanes == g * lanes + lanes)
                by (nonlinear_arith)
                requires
                    g < width / lanes,
                    lanes >= 1,
            ;
            let (z, c) = load_group::<R>(formula, lanes, x, y, height, xpos, ypos, at_pointer);
            let counts = run_group(formula, z, &c, cap, pow);
            let ghost mid = *block;
            store_group(block, y - hstart, x, &counts);
            proof {
                let row = y - hstart;
                assert forall|r: int, col: int|
                    0 <= r < old(block).len() && 0 <= col < old(block)[r].len() implies #[trigger] block[r][col]
                    == if (r < row && col < width) || (r == row && col < x + lanes) {
                    count_at::<R>(
                        formula,
                        lanes,
                        col as usize,
                        (hstart + r) as usize,
                        cap,
                        pow,
                        width,
                        height,
                        xpos,
                        ypos,
                    )
                } else {
                    old(block)[r][col]
                } by {
                    assert(mid[r].len() == old(block)[r].len());
                    assert(block[r][col] == if r == row && x <= col < x + lanes {
                        counts[lanes - 1 - (col - x)]
                    } else {
                        mid[r][col]
                    });
                    if r == row && x <= col < x + lanes {
                        let l = lanes - 1 - (col - x);
                        assert(lane_column(x, lanes, l) == col);
                        assert(z[l] == start_spec::<R>(formula, col as usize, y, height));
                        assert(c[l] == constant_spec::<R>(formula, col as usize, y, height, xpos, ypos));
                    }
                }
            }
            g = g + 1;
            x = x + lanes;
        }
        assert(grouped ==> x == width - width % lanes) by (nonlinear_arith)
            requires
                x == g * lanes,
                g == groups,
                grouped ==> groups == width / lanes,
                width == lanes * (width / lanes) + width % lanes,
        ;
        fill_columns::<R>(
            formula,
            lanes,
            x,
            hstart,
            y,
            cap,
            pow,
            width,
            height,
            block,
            xpos,
            ypos,
            Ghost(*old(block)),
        );
        y = y + 1;
    }
    (hstart, hend)
}

} // verus!
