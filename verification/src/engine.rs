//! The generation-stepping engine.
//!
//! One `step` call performs one full synchronous sweep: for every coordinate
//! it extracts the neighborhood from the input grid, applies the transition
//! rule to the cell's current state and that neighborhood, and writes the
//! result into a freshly allocated output grid. The engine never reads from
//! the output grid while building it and never mutates the input grid, so
//! every cell's transition observes only the previous generation.

use vstd::prelude::*;

use crate::grid::Coordinate;
use crate::grid::Grid;
use crate::grid::GridError;
use crate::extractor::NeighborhoodExtractor;
use crate::neighborhood::Topology;
use crate::neighborhood::extract_spec;
use crate::rule::TransitionRule;

verus! {

/// What one cell of the stepped grid holds: the rule applied to the cell's
/// previous state and its neighborhood in the previous generation.
pub open spec fn stepped_cell<S, R: TransitionRule<S>>(
    g: Grid<S>,
    topology: Topology,
    rule: R,
    row: int,
    column: int,
) -> S {
    rule.next_state_spec(g.cell(row, column), extract_spec(g, row, column, topology))
}

/// Orchestrates one full-grid sweep per `step` call.
pub struct SteppingEngine;

impl SteppingEngine {
    /// Computes the next generation of `grid` under `topology` and `rule`.
    ///
    /// Fails with `DimensionMismatch` exactly when the grid has zero rows or
    /// zero columns; otherwise returns a fresh grid of identical dimensions
    /// in which every cell holds the rule applied to that cell's previous
    /// state and its extracted neighborhood. The input grid is borrowed
    /// immutably and left untouched.
    pub fn step<S: Copy, R: TransitionRule<S>>(
        grid: &Grid<S>,
        topology: Topology,
        rule: &R,
    ) -> (r: Result<Grid<S>, GridError>)
        requires
            grid.wf(),
        ensures
            r is Err <==> (grid.spec_rows() == 0 || grid.spec_columns() == 0),
            r is Err ==> r == Err::<Grid<S>, GridError>(GridError::DimensionMismatch),
            (r matches Ok(g2) ==> {
                &&& g2.wf()
                &&& g2.spec_rows() == grid.spec_rows()
                &&& g2.spec_columns() == grid.spec_columns()
                &&& forall|i: int, j: int|
                    grid.in_bounds(i, j) ==> #[trigger] g2.cell(i, j) == stepped_cell(
                        *grid,
                        topology,
                        *rule,
                        i,
                        j,
                    )
            }),
    {
        let (rows, columns) = grid.dimensions();
        if rows == 0 || columns == 0 {
            return Err(GridError::DimensionMismatch);
        }
        proof {
            grid.lemma_wf_size();
        }
        let seed = grid.state_at(0, 0);
        let mut out = match Grid::create(rows, columns, seed) {
            Ok(g) => g,
            Err(_) => {
                proof {
                    assert(false);
                }
                return Err(GridError::DimensionMismatch);
            },
        };
        let mut row: usize = 0;
        while row < rows
            invariant
                grid.wf(),
                row <= rows,
                rows == grid.spec_rows(),
                columns == grid.spec_columns(),
                rows > 0 && columns > 0,
                out.wf(),
                out.spec_rows() == rows,
                out.spec_columns() == columns,
                forall|i: int, j: int|
                    0 <= i < row && 0 <= j < columns ==> #[trigger] out.cell(i, j) == stepped_cell(
                        *grid,
                        topology,
                        *rule,
                        i,
                        j,
                    ),
            decreases rows - row,
        {
            let mut column: usize = 0;
            while column < columns
                invariant
                    grid.wf(),
                    row < rows,
                    column <= columns,
                    rows == grid.spec_rows(),
                    columns == grid.spec_columns(),
                    out.wf(),
                    out.spec_rows() == rows,
                    out.spec_columns() == columns,
                    forall|i: int, j: int|
                        (0 <= i < row && 0 <= j < columns) || (i == row && 0 <= j < column)
                            ==> #[trigger] out.cell(i, j) == stepped_cell(
                            *grid,
                            topology,
                            *rule,
                            i,
                            j,
                        ),
                decreases columns - column,
            {
                let coordinate = Coordinate { row, column };
                let neighborhood = NeighborhoodExtractor::extract(grid, coordinate, topology);
                let current = grid.state_at(row, column);
                let next = rule.next_state(current, neighborhood);
                let _ = out.set(coordinate, next);
                column = column + 1;
            }
            row = row + 1;
        }
        Ok(out)
    }
}

} // verus!
