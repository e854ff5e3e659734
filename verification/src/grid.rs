//! Fixed-size two-dimensional grid of cell states with bounds-checked access.
//!
//! A `Grid` is created once with fixed dimensions and holds one generation of
//! an automaton. Cells are stored in row-major order; every access is
//! bounds-checked against the dimensions fixed at construction.

use vstd::prelude::*;

verus! {

/// The error kinds of the automaton core.
#[derive(Clone, Copy, Debug, PartialEq, Eq, Structural)]
pub enum GridError {
    /// A grid construction was attempted with zero rows or zero columns.
    InvalidDimensions,
    /// A coordinate access fell outside the grid's dimensions.
    OutOfBounds,
    /// A step was attempted on a grid with zero rows or zero columns.
    DimensionMismatch,
}

/// A (row, column) pair addressing one cell of a grid. It is valid for a
/// grid exactly when `row` is below the grid's row count and `column` below
/// its column count.
#[derive(Clone, Copy, Debug, PartialEq, Eq, Structural)]
pub struct Coordinate {
    pub row: usize,
    pub column: usize,
}

/// A rectangular `rows x columns` array of cell states, stored row-major.
pub struct Grid<S> {
    rows: usize,
    columns: usize,
    cells: Vec<S>,
}

/// A row-major index `row * columns + column` stays below `rows * columns`
/// whenever `(row, column)` is in bounds.
pub proof fn lemma_row_major_bounds(row: int, column: int, rows: int, columns: int)
    requires
        0 <= row < rows,
        0 <= column < columns,
    ensures
        0 <= row * columns + column < rows * columns,
{
    assert(row * columns + column < rows * columns) by (nonlinear_arith)
        requires
            0 <= row < rows,
            0 <= column < columns,
    {
    }
}

/// Row-major indexing is injective on in-bounds coordinates: two distinct
/// coordinates of one grid never share a storage index.
pub proof fn lemma_row_major_injective(r1: int, c1: int, r2: int, c2: int, columns: int)
    requires
        0 <= r1,
        0 <= r2,
        0 <= c1 < columns,
        0 <= c2 < columns,
        !(r1 == r2 && c1 == c2),
    ensures
        r1 * columns + c1 != r2 * columns + c2,
{
    assert(r1 * columns + c1 != r2 * columns + c2) by (nonlinear_arith)
        requires
            0 <= r1,
            0 <= r2,
            0 <= c1 < columns,
            0 <= c2 < columns,
            !(r1 == r2 && c1 == c2),
    {
    }
}

impl<S> Grid<S> {
    /// Number of rows.
    pub closed spec fn spec_rows(&self) -> int {
        self.rows as int
    }

    /// Number of columns.
    pub closed spec fn spec_columns(&self) -> int {
        self.columns as int
    }

    /// The state stored at `(row, column)`, read from the row-major storage.
    pub closed spec fn cell(&self, row: int, column: int) -> S {
        self.cells@[row * self.spec_columns() + column]
    }

    /// Shape consistency: the storage holds exactly `rows * columns` cells,
    /// and that count fits the machine word.
    pub closed spec fn wf(&self) -> bool {
        &&& self.cells@.len() == self.spec_rows() * self.spec_columns()
        &&& self.spec_rows() * self.spec_columns() <= usize::MAX
    }

    /// Whether `(row, column)` addresses a cell of this grid.
    pub open spec fn in_bounds(&self, row: int, column: int) -> bool {
        0 <= row < self.spec_rows() && 0 <= column < self.spec_columns()
    }

    /// Whether a coordinate addresses a cell of this grid.
    pub open spec fn contains(&self, coordinate: Coordinate) -> bool {
        self.in_bounds(coordinate.row as int, coordinate.column as int)
    }

    /// A well-formed grid's cell count fits the machine word.
    pub proof fn lemma_wf_size(&self)
        requires
            self.wf(),
        ensures
            self.spec_rows() * self.spec_columns() <= usize::MAX,
    {
    }

    /// The dimensions fixed at construction, as (rows, columns).
    pub fn dimensions(&self) -> (d: (usize, usize))
        ensures
            d.0 == self.spec_rows(),
            d.1 == self.spec_columns(),
    {
        (self.rows, self.columns)
    }
}

impl<S: Copy> Grid<S> {
    /// Builds a `rows x columns` grid filled uniformly with `initial_state`.
    /// Rejects zero rows or zero columns with `InvalidDimensions`.
    pub fn create(rows: usize, columns: usize, initial_state: S) -> (r: Result<Grid<S>, GridError>)
        requires
            rows * columns <= usize::MAX,
        ensures
            r is Ok <==> (rows > 0 && columns > 0),
            r is Err ==> r == Err::<Grid<S>, GridError>(GridError::InvalidDimensions),
            (r matches Ok(g) ==> {
                &&& g.wf()
                &&& g.spec_rows() == rows
                &&& g.spec_columns() == columns
                &&& forall|i: int, j: int|
                    g.in_bounds(i, j) ==> #[trigger] g.cell(i, j) == initial_state
            }),
    {
        if rows == 0 || columns == 0 {
            return Err(GridError::InvalidDimensions);
        }
        let total: usize = rows * columns;
        let mut cells: Vec<S> = Vec::new();
        let mut filled: usize = 0;
        while filled < total
            invariant
                filled <= total,
                cells@.len() == filled,
                forall|k: int| 0 <= k < filled ==> cells@[k] == initial_state,
            decreases total - filled,
        {
            cells.push(initial_state);
            filled = filled + 1;
        }
        let g = Grid { rows, columns, cells };
        proof {
            assert forall|i: int, j: int| g.in_bounds(i, j) implies #[trigger] g.cell(i, j)
                == initial_state by {
                lemma_row_major_bounds(i, j, rows as int, columns as int);
            }
        }
        Ok(g)
    }

    /// The state at an in-bounds coordinate, without the error path of `get`;
    /// callers must have proved the coordinate in bounds.
    pub fn state_at(&self, row: usize, column: usize) -> (s: S)
        requires
            self.wf(),
            self.in_bounds(row as int, column as int),
        ensures
            s == self.cell(row as int, column as int),
    {
        proof {
            lemma_row_major_bounds(row as int, column as int, self.spec_rows(), self.spec_columns());
        }
        let index: usize = row * self.columns + column;
        self.cells[index]
    }

    /// The state at `coordinate`, or `OutOfBounds` if the coordinate exceeds
    /// the grid's dimensions.
    pub fn get(&self, coordinate: Coordinate) -> (r: Result<S, GridError>)
        requires
            self.wf(),
        ensures
            self.contains(coordinate) ==> r == Ok::<S, GridError>(
                self.cell(coordinate.row as int, coordinate.column as int),
            ),
            !self.contains(coordinate) ==> r == Err::<S, GridError>(GridError::OutOfBounds),
    {
        if coordinate.row < self.rows && coordinate.column < self.columns {
            Ok(self.state_at(coordinate.row, coordinate.column))
        } else {
            Err(GridError::OutOfBounds)
        }
    }

    /// Replaces the state at `coordinate`, leaving every other cell and the
    /// dimensions unchanged; rejects an out-of-bounds coordinate with
    /// `OutOfBounds` and then leaves the grid untouched.
    pub fn set(&mut self, coordinate: Coordinate, state: S) -> (r: Result<(), GridError>)
        requires
            old(self).wf(),
        ensures
            final(self).wf(),
            final(self).spec_rows() == old(self).spec_rows(),
            final(self).spec_columns() == old(self).spec_columns(),
            old(self).contains(coordinate) ==> {
                &&& r == Ok::<(), GridError>(())
                &&& final(self).cell(coordinate.row as int, coordinate.column as int) == state
                &&& forall|i: int, j: int|
                    old(self).in_bounds(i, j) && !(i == coordinate.row && j == coordinate.column)
                        ==> #[trigger] final(self).cell(i, j) == old(self).cell(i, j)
            },
            !old(self).contains(coordinate) ==> {
                &&& r == Err::<(), GridError>(GridError::OutOfBounds)
                &&& *final(self) == *old(self)
            },
    {
        if coordinate.row < self.rows && coordinate.column < self.columns {
            proof {
                lemma_row_major_bounds(
                    coordinate.row as int,
                    coordinate.column as int,
                    self.spec_rows(),
                    self.spec_columns(),
                );
            }
            let index: usize = coordinate.row * self.columns + coordinate.column;
            self.cells[index] = state;
            proof {
                assert forall|i: int, j: int|
                    old(self).in_bounds(i, j) && !(i == coordinate.row && j == coordinate.column)
                        implies #[trigger] self.cell(i, j) == old(self).cell(i, j) by {
                    lemma_row_major_bounds(i, j, self.spec_rows(), self.spec_columns());
                    lemma_row_major_injective(
                        i,
                        j,
                        coordinate.row as int,
                        coordinate.column as int,
                        self.spec_columns(),
                    );
                }
            }
            Ok(())
        } else {
            Err(GridError::OutOfBounds)
        }
    }
}

} // verus!
