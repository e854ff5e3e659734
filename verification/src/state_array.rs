//! Trusted interface to the `ndarray` crate.
//!
//! A `StateArray` is a two-dimensional `ndarray` array of game states: the
//! storage callers use to hand a seeded generation to the library. The array
//! is opaque to the verifier, so its shape and contents are named by
//! uninterpreted spec functions, and two trusted wrappers relate the named
//! values to the plain values that the verified code works with.

use vstd::prelude::*;

use crate::gol::GameState;

verus! {

/// A two-dimensional array of game states, backed by `ndarray::Array2`.
#[verifier::external_body]
pub struct StateArray {
    array: ndarray::Array2<GameState>,
}

/// The contents of a state array, row by row.
pub uninterp spec fn state_array_view(a: StateArray) -> Seq<Seq<GameState>>;

/// The shape of a state array, as (rows, columns).
pub uninterp spec fn state_array_dim(a: StateArray) -> (int, int);

impl StateArray {
    /// Relies on `ndarray::Array2::from_shape_vec` with a `(rows, columns)`
    /// shape: it builds the array from a row-major vector, and errors exactly
    /// when the vector's length differs from `rows * columns` or the shape's
    /// size would overflow `isize`.
    #[verifier::external_body]
    pub fn from_row_major(rows: usize, columns: usize, cells: Vec<GameState>) -> (r: Option<
        StateArray,
    >)
        ensures
            (cells@.len() == rows as int * columns as int && rows as int <= isize::MAX as int
                && columns as int <= isize::MAX as int && rows as int * columns as int
                <= isize::MAX as int) ==> r is Some,
            r is Some ==> cells@.len() == rows as int * columns as int,
            (r matches Some(a) ==> {
                &&& state_array_dim(a) == (rows as int, columns as int)
                &&& state_array_view(a).len() == rows as int
                &&& forall|i: int|
                    0 <= i < rows as int ==> (#[trigger] state_array_view(a)[i]).len()
                        == columns as int
                &&& forall|i: int, j: int|
                    0 <= i < rows as int && 0 <= j < columns as int ==> state_array_view(a)[i][j]
                        == cells@[i * (columns as int) + j]
            }),
    {
        match ndarray::Array2::from_shape_vec((rows, columns), cells) {
            Ok(array) => Some(StateArray { array }),
            Err(_) => None,
        }
    }

    /// Relies on `ndarray::ArrayBase::dim`, which returns the array's
    /// (rows, columns) shape, and on `ndarray::ArrayBase::iter`, which visits
    /// the elements in the array's logical order: row by row, the column
    /// index varying fastest.
    #[verifier::external_body]
    pub(crate) fn to_row_major(&self) -> (r: (Vec<GameState>, usize, usize))
        ensures
            r.1 as int == state_array_dim(*self).0,
            r.2 as int == state_array_dim(*self).1,
            state_array_view(*self).len() == r.1 as int,
            forall|i: int|
                0 <= i < r.1 as int ==> (#[trigger] state_array_view(*self)[i]).len() == r.2 as int,
            r.0@.len() == r.1 as int * r.2 as int,
            forall|i: int, j: int|
                0 <= i < r.1 as int && 0 <= j < r.2 as int ==> r.0@[i * (r.2 as int) + j]
                    == state_array_view(*self)[i][j],
    {
        let (rows, columns) = self.array.dim();
        let cells: Vec<GameState> = self.array.iter().cloned().collect();
        (cells, rows, columns)
    }
}

} // verus!
