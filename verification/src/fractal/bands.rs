//! Dividing the rows of an image into bands, one to a worker.
//!
//! With `bands` workers every band has `height / bands` rows, and the last one takes the
//! rows that are left over as well.

use vstd::prelude::*;

verus! {

/// The first row of band `i`.
pub open spec fn band_start(height: usize, bands: usize, i: int) -> int {
    i * (height / bands)
}

/// The row after the last row of band `i`: the first row of the next band, and the image
/// height for the last band.
pub open spec fn band_end(height: usize, bands: usize, i: int) -> int {
    if i == bands - 1 {
        height as int
    } else {
        (i + 1) * (height / bands)
    }
}

/// The number of rows of band `i`.
pub open spec fn band_rows(height: usize, bands: usize, i: int) -> int {
    band_end(height, bands, i) - band_start(height, bands, i)
}

/// The band that row `y` lies in.
pub open spec fn band_of(height: usize, bands: usize, y: int) -> int {
    if height / bands == 0 || y / ((height / bands) as int) >= bands {
        bands - 1
    } else {
        y / ((height / bands) as int)
    }
}

/// The starts of the bands do not decrease, and none lies beyond `bands` full bands.
pub proof fn lemma_band_start_monotone(height: usize, bands: usize, i: int, j: int)
    requires
        bands > 0,
        0 <= i <= j <= bands,
    ensures
        0 <= band_start(height, bands, i) <= band_start(height, bands, j) <= height,
{
    let size = (height / bands) as int;
    vstd::arithmetic::div_mod::lemma_fundamental_div_mod(height as int, bands as int);
    assert(0 <= i * size <= j * size <= bands * size) by (nonlinear_arith)
        requires
            0 <= i <= j <= bands,
            0 <= size,
    ;
    assert(bands * size <= height) by (nonlinear_arith)
        requires
            height == bands * size + height % bands,
            0 <= height % bands,
    ;
}

/// Each band is a range of rows inside the image; the first band begins at row 0, each
/// band begins where the one before it ends, and the last band ends with the image.
pub proof fn lemma_bands_contiguous(height: usize, bands: usize, i: int)
    requires
        bands > 0,
        0 <= i < bands,
    ensures
        band_start(height, bands, 0) == 0,
        0 <= band_start(height, bands, i) <= band_end(height, bands, i) <= height,
        i + 1 < bands ==> band_end(height, bands, i) == band_start(height, bands, i + 1),
        band_end(height, bands, bands - 1) == height,
{
    lemma_band_start_monotone(height, bands, i, i + 1);
    lemma_band_start_monotone(height, bands, i, bands as int);
}

/// The last band has the rows of a full band and the remainder of the division.
pub proof fn lemma_last_band_absorbs_remainder(height: usize, bands: usize)
    requires
        bands > 0,
    ensures
        band_rows(height, bands, bands - 1) == height / bands + height % bands,
        forall|i: int| 0 <= i < bands - 1 ==> #[trigger] band_rows(height, bands, i) == height / bands,
{
    let size = (height / bands) as int;
    vstd::arithmetic::div_mod::lemma_fundamental_div_mod(height as int, bands as int);
    assert((bands - 1) * size == bands * size - size) by (nonlinear_arith);
    assert forall|i: int| 0 <= i < bands - 1 implies #[trigger] band_rows(height, bands, i) == height
        / bands by {
        assert((i + 1) * size == i * size + size) by (nonlinear_arith);
    }
}

/// The bands cover the image without overlap: every row of the image lies in the band
/// `band_of` names, and in no other.
pub proof fn lemma_bands_partition(height: usize, bands: usize, y: int)
    requires
        bands > 0,
        0 <= y < height,
    ensures
        0 <= band_of(height, bands, y) < bands,
        band_start(height, bands, band_of(height, bands, y)) <= y < band_end(
            height,
            bands,
            band_of(height, bands, y),
        ),
        forall|j: int|
            0 <= j < bands && #[trigger] band_start(height, bands, j) <= y < band_end(height, bands, j)
                ==> j == band_of(height, bands, y),
{
    let size = (height / bands) as int;
    let i = band_of(height, bands, y);
    if size > 0 {
        vstd::arithmetic::div_mod::lemma_fundamental_div_mod(y, size);
        vstd::arithmetic::div_mod::lemma_div_pos_is_pos(y, size);
        let q = y / size;
        assert(q * size == size * q) by (nonlinear_arith);
        if q >= bands {
            assert(q * size >= (bands - 1) * size) by (nonlinear_arith)
                requires
                    q >= bands - 1,
                    size >= 0,
            ;
        } else {
            assert((q + 1) * size == q * size + size) by (nonlinear_arith);
        }
    } else {
        assert((bands - 1) * size == 0) by (nonlinear_arith)
            requires
                size == 0,
        ;
    }
    assert(0 <= i < bands);
    assert(band_start(height, bands, i) <= y < band_end(height, bands, i));
    assert forall|j: int|
        0 <= j < bands && #[trigger] band_start(height, bands, j) <= y < band_end(
            height,
            bands,
            j,
        ) implies j == i by {
        if j < i {
            lemma_band_start_monotone(height, bands, j + 1, i);
        } else if j > i {
            lemma_band_start_monotone(height, bands, i + 1, j);
        }
    }
}

/// The rows `start..end` of band `i`.
pub fn band_range(height: usize, bands: usize, i: usize) -> (range: (usize, usize))
    requires
        bands > 0,
        i < bands,
    ensures
        range.0 == band_start(height, bands, i as int),
        range.1 == band_end(height, bands, i as int),
        range.0 <= range.1 <= height,
{
    proof {
        lemma_bands_contiguous(height, bands, i as int);
        lemma_band_start_monotone(height, bands, i as int, i + 1);
    }
    let size = height / bands;
    let start = i * size;
    let end = if i == bands - 1 {
        height
    } else {
        (i + 1) * size
    };
    (start, end)
}

} // verus!
