//! The integer half of the pixel-to-complex-plane mapping: a linear buffer
//! index becomes a column and an inverted row, so that the first buffer row is
//! visually topmost while the mathematical y-axis points up.

use vstd::prelude::*;

use vstd::arithmetic::div_mod::{lemma_fundamental_div_mod, lemma_multiply_divide_lt};

verus! {

/// The column a linear pixel index falls in.
pub open spec fn spec_column(index: int, width: int) -> int {
    index % width
}

/// The row a linear pixel index falls in, counted from the bottom of the
/// complex-plane range: row `0` of the buffer maps to `height - 1`.
pub open spec fn spec_inverted_row(index: int, width: int, height: int) -> int {
    height - 1 - index / width
}

/// Maps a linear pixel index to `(column, inverted row)` for interpolation
/// over the viewport. Both results are in range for the given dimensions.
pub fn pixel_coordinates(index: usize, width: usize, height: usize) -> (xy: (usize, usize))
    requires
        0 < width,
        0 < height,
        index < width * height,
    ensures
        xy.0 == spec_column(index as int, width as int),
        xy.1 == spec_inverted_row(index as int, width as int, height as int),
        xy.0 < width,
        xy.1 < height,
{
    proof {
        lemma_multiply_divide_lt(index as int, width as int, height as int);
    }
    let x = index % width;
    let y = height - index / width - 1;
    (x, y)
}

/// Distinct linear indices land on distinct pixels: the mapping to
/// `(column, inverted row)` is injective, so per-pixel work writes disjoint
/// output slots.
pub proof fn lemma_pixel_coordinates_injective(i: int, j: int, width: int, height: int)
    requires
        0 < width,
        0 < height,
        0 <= i < width * height,
        0 <= j < width * height,
        spec_column(i, width) == spec_column(j, width),
        spec_inverted_row(i, width, height) == spec_inverted_row(j, width, height),
    ensures
        i == j,
{
    lemma_fundamental_div_mod(i, width);
    lemma_fundamental_div_mod(j, width);
}

} // verus!
