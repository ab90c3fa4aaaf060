//! Two-dimensional sample grids held in `ndarray` arrays.
//!
//! Verus cannot look into such an array, so what the library knows of a
//! grid is what the functions of this file state, and none of it is proved.

use vstd::prelude::*;

verus! {

/// A grid of samples: an owned two-dimensional array of `ndarray`. The field
/// is public so that callers can hand arrays in and take them out; to Verus
/// a grid is opaque.
#[verifier::external_body]
pub struct Grid(pub ndarray::Array2<u16>);

/// The elements of a grid in logical order: row by row, each row from its
/// first column to its last.
pub uninterp spec fn grid_elements(grid: Grid) -> Seq<u16>;

/// The lengths of the two axes of a grid: rows, then columns.
pub uninterp spec fn grid_shape(grid: Grid) -> (nat, nat);

/// `ArrayBase::dim` of ndarray on a two-dimensional array: the number of
/// rows and the number of columns.
#[verifier::external_body]
pub(crate) fn grid_dim(grid: &Grid) -> (shape: (usize, usize))
    ensures
        shape.0 == grid_shape(*grid).0,
        shape.1 == grid_shape(*grid).1,
{
    grid.0.dim()
}

/// `ArrayBase::iter` of ndarray, collected: the elements in logical order,
/// the rightmost index varying fastest. There is one element for each place
/// of the grid.
#[verifier::external_body]
pub(crate) fn grid_to_vec(grid: &Grid) -> (elements: Vec<u16>)
    ensures
        elements@ == grid_elements(*grid),
        elements@.len() == grid_shape(*grid).0 * grid_shape(*grid).1,
{
    grid.0.iter().copied().collect()
}

/// `Array::from_shape_vec` of ndarray with a row-major shape: the array
/// keeps the vector as its storage, so that its logical order is the
/// vector's. The outside call fails where the vector's length is not the
/// product of the axes, which `requires` leaves out; a vector of that length
/// exists only where the product fits the machine.
#[verifier::external_body]
pub(crate) fn grid_from_shape_vec(height: usize, width: usize, samples: Vec<u16>) -> (grid: Grid)
    requires
        height <= 65535,
        width <= 65535,
        samples.len() == height * width,
    ensures
        grid_shape(grid) == (height as nat, width as nat),
        grid_elements(grid) == samples@,
{
    Grid(ndarray::Array2::from_shape_vec((height, width), samples).unwrap())
}

} // verus!
