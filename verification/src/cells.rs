//! The cell buffer: a square array of bytes kept in an `ndarray::Array2<u8>`.
//!
//! Nothing in this file is proved. The contracts say what `ndarray` does to
//! the array, and every proof about the grid rests on them.

use vstd::prelude::*;

verus! {

/// A two-dimensional array of cell bytes, owned by `ndarray`. Its contents
/// are opaque to the verifier and are spoken of only through [`cell_rows`].
#[verifier::external_body]
pub struct Cells {
    array: ndarray::Array2<u8>,
}

/// The contents of the array, row by row: `cell_rows(c)[y][x]` is the
/// element that `ndarray` keeps at index `[y, x]`.
pub uninterp spec fn cell_rows(c: Cells) -> Seq<Seq<u8>>;

/// `ndarray::Array2::<u8>::zeros((n, n))`: an array of `n` rows by `n`
/// columns in which every element is zero. `ndarray` panics when the number
/// of elements exceeds `isize::MAX`, so such sizes are left out.
#[verifier::external_body]
pub(crate) fn zeros(n: usize) -> (c: Cells)
    requires
        n * n <= isize::MAX,
    ensures
        cell_rows(c) == Seq::new(n as nat, |y: int| Seq::new(n as nat, |x: int| 0u8)),
{
    Cells { array: ndarray::Array2::<u8>::zeros((n, n)) }
}

/// Indexing, `array[[y, x]]`: the element in row `y`, column `x`. `ndarray`
/// panics on an index outside the array, so such indices are left out.
#[verifier::external_body]
pub(crate) fn load(c: &Cells, y: usize, x: usize) -> (cell: u8)
    requires
        y < cell_rows(*c).len(),
        x < cell_rows(*c)[y as int].len(),
    ensures
        cell == cell_rows(*c)[y as int][x as int],
{
    c.array[[y, x]]
}

/// Indexed assignment, `array[[y, x]] = cell`: the element in row `y`,
/// column `x` becomes `cell`, and every other element and the shape stay as
/// they were. `ndarray` panics on an index outside the array, so such
/// indices are left out.
#[verifier::external_body]
pub(crate) fn store(c: &mut Cells, y: usize, x: usize, cell: u8)
    requires
        y < cell_rows(*old(c)).len(),
        x < cell_rows(*old(c))[y as int].len(),
    ensures
        cell_rows(*final(c)) == cell_rows(*old(c)).update(
            y as int,
            cell_rows(*old(c))[y as int].update(x as int, cell),
        ),
{
    c.array[[y, x]] = cell;
}

} // verus!
