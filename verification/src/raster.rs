//! The output raster and the iteration buffers, as rows of cells.

use crate::color::{lookup, Color};
use vstd::prelude::*;

verus! {

/// Whether `grid` has `height` rows of `width` cells each.
pub open spec fn shaped<T>(grid: Vec<Vec<T>>, width: int, height: int) -> bool {
    &&& grid.len() == height
    &&& forall|r: int| 0 <= r < height ==> (#[trigger] grid[r]).len() == width
}

/// The cells of a grid, row by row.
pub open spec fn cells<T>(grid: Vec<Vec<T>>) -> Seq<Seq<T>> {
    Seq::new(grid.len() as nat, |r: int| grid[r]@)
}

/// Whether the first `rows` rows of `block` have a colour in a table of `colors` entries
/// for each of their first `width` cells.
pub open spec fn paintable(block: Vec<Vec<u32>>, rows: usize, width: usize, colors: nat) -> bool {
    &&& block.len() >= rows
    &&& forall|r: int| 0 <= r < rows ==> (#[trigger] block[r]).len() >= width
    &&& forall|r: int, c: int| 0 <= r < rows && 0 <= c < width ==> (#[trigger] block[r][c]) < colors
}

/// How far the painting of a band has come: the first `rows` rows of the band, and the
/// first `cols` cells of the row after them, hold the colour of their count; every other
/// pixel is as it was. Row `r` of the block is row `start + r` of the image.
pub open spec fn painted_to(
    colors: Vec<Color>,
    block: Vec<Vec<u32>>,
    start: usize,
    rows: int,
    cols: int,
    width: usize,
    before: Vec<Vec<Color>>,
    now: Vec<Vec<Color>>,
) -> bool {
    &&& now.len() == before.len()
    &&& forall|y: int| 0 <= y < before.len() ==> (#[trigger] now[y]).len() == before[y].len()
    &&& forall|y: int, x: int|
        0 <= y < before.len() && 0 <= x < before[y].len() ==> #[trigger] now[y][x] == if (start <= y
            < start + rows && x < width) || (y == start + rows && x < cols) {
            colors[block[y - start][x] as int]
        } else {
            before[y][x]
        }
}

/// A grid of `height` rows of `width` cells, each holding `fill`.
pub fn new_grid<T: Copy>(width: usize, height: usize, fill: T) -> (grid: Vec<Vec<T>>)
    ensures
        shaped(grid, width as int, height as int),
        forall|r: int, c: int| 0 <= r < height && 0 <= c < width ==> #[trigger] grid[r][c] == fill,
{
    let mut grid: Vec<Vec<T>> = Vec::new();
    let mut r: usize = 0;
    while r < height
        invariant
            r <= height,
            grid.len() == r,
            forall|k: int| 0 <= k < r ==> (#[trigger] grid[k]).len() == width,
            forall|k: int, c: int| 0 <= k < r && 0 <= c < width ==> #[trigger] grid[k][c] == fill,
        decreases height - r,
    {
        let mut row: Vec<T> = Vec::new();
        let mut c: usize = 0;
        while c < width
            invariant
                c <= width,
                row.len() == c,
                forall|k: int| 0 <= k < c ==> #[trigger] row[k] == fill,
            decreases width - c,
        {
            row.push(fill);
            c = c + 1;
        }
        grid.push(row);
        r = r + 1;
    }
    grid
}

/// Paints a band: writes into the rows `start..start + rows` of `image`, for each of the
/// first `width` columns, the colour that `colors` has for the count in `block`. Each of
/// these pixels is written once; no other pixel is touched.
pub fn paint_band(
    image: &mut Vec<Vec<Color>>,
    colors: &Vec<Color>,
    block: &Vec<Vec<u32>>,
    start: usize,
    rows: usize,
    width: usize,
)
    requires
        start + rows <= old(image).len(),
        forall|y: int| start <= y < start + rows ==> (#[trigger] old(image)[y]).len() >= width,
        paintable(*block, rows, width, colors.len() as nat),
    ensures
        painted_to(*colors, *block, start, rows as int, 0, width, *old(image), *final(image)),
{
    let mut r: usize = 0;
    while r < rows
        invariant
            r <= rows,
            start + rows <= image.len(),
            forall|y: int| start <= y < start + rows ==> (#[trigger] old(image)[y]).len() >= width,
            paintable(*block, rows, width, colors.len() as nat),
            painted_to(*colors, *block, start, r as int, 0, width, *old(image), *image),
        decreases rows - r,
    {
        let mut c: usize = 0;
        while c < width
            invariant
                r < rows,
                c <= width,
                start + rows <= image.len(),
                forall|y: int| start <= y < start + rows ==> (#[trigger] old(image)[y]).len() >= width,
                paintable(*block, rows, width, colors.len() as nat),
                painted_to(*colors, *block, start, r as int, c as int, width, *old(image), *image),
            decreases width - c,
        {
            assert(image[start + r].len() == old(image)[start + r].len());
            assert(block[r as int][c as int] < colors.len());
            let color = lookup(colors, block[r][c]);
            image[start + r][c] = color;
            c = c + 1;
        }
        r = r + 1;
    }
}

} // verus!
