//! The automaton interface: a current generation, a topology, a rule, and a
//! synchronous step.
//!
//! An implementor holds one generation of cell states and advances it one
//! generation at a time. The contracts tie every method to the implementor's
//! spec-level grid, topology and rule, so a step can only ever compute the
//! synchronous next generation: each cell's next state is the rule applied to
//! that cell's previous state and its neighborhood in the previous
//! generation.

use vstd::prelude::*;

use crate::grid::Coordinate;
use crate::grid::Grid;
use crate::grid::GridError;
use crate::neighborhood::ExtendedVonNeumannNeighborhood;
use crate::neighborhood::MooreNeighborhood;
use crate::neighborhood::Neighborhood;
use crate::neighborhood::Topology;
use crate::neighborhood::VonNeumannNeighborhood;
use crate::neighborhood::extended_von_neumann_spec;
use crate::neighborhood::extract_spec;
use crate::neighborhood::moore_spec;
use crate::neighborhood::von_neumann_spec;

verus! {

/// A two-dimensional cellular automaton over a fixed grid of states.
pub trait Automaton: Sized {
    /// The per-cell state type.
    type State: Copy;

    /// The automaton's current generation.
    spec fn current(&self) -> Grid<Self::State>;

    /// The topology under which neighborhoods are read.
    spec fn topology_spec(&self) -> Topology;

    /// The transition rule, as a mathematical function of a cell's current
    /// state and its neighborhood.
    spec fn rule_spec(&self, current: Self::State, neighborhood: Neighborhood<Self::State>) -> Self::State;

    /// Borrows the current generation.
    fn get_grid(&self) -> (g: &Grid<Self::State>)
        ensures
            *g == self.current(),
    ;

    /// The next state of the cell at `coordinate`: the rule applied to the
    /// cell's current state and its extracted neighborhood.
    fn next_state_of(&self, coordinate: Coordinate) -> (r: Self::State)
        requires
            self.current().wf(),
            self.current().contains(coordinate),
        ensures
            r == self.rule_spec(
                self.current().cell(coordinate.row as int, coordinate.column as int),
                extract_spec(
                    self.current(),
                    coordinate.row as int,
                    coordinate.column as int,
                    self.topology_spec(),
                ),
            ),
    ;

    /// The Moore neighborhood of `coordinate` in the current generation.
    fn moore_neighborhood_of(&self, coordinate: Coordinate) -> (r: MooreNeighborhood<Self::State>)
        requires
            self.current().wf(),
            self.current().contains(coordinate),
        ensures
            r == moore_spec(self.current(), coordinate.row as int, coordinate.column as int),
    ;

    /// The von Neumann neighborhood of `coordinate` in the current generation.
    fn vn_neighborhood_of(&self, coordinate: Coordinate) -> (r: VonNeumannNeighborhood<Self::State>)
        requires
            self.current().wf(),
            self.current().contains(coordinate),
        ensures
            r == von_neumann_spec(self.current(), coordinate.row as int, coordinate.column as int),
    ;

    /// The extended von Neumann neighborhood of `coordinate` in the current
    /// generation.
    fn extended_vn_neighborhood_of(&self, coordinate: Coordinate) -> (r:
        ExtendedVonNeumannNeighborhood<Self::State>)
        requires
            self.current().wf(),
            self.current().contains(coordinate),
        ensures
            r == extended_von_neumann_spec(
                self.current(),
                coordinate.row as int,
                coordinate.column as int,
            ),
    ;

    /// One full synchronous sweep: the next generation of the automaton.
    ///
    /// Fails with `DimensionMismatch` exactly on a degenerate grid (zero rows
    /// or zero columns); otherwise the result holds a fresh grid of identical
    /// dimensions in which every cell is the rule applied to that cell's
    /// previous state and neighborhood. The receiver is never mutated.
    fn step(&self) -> (r: Result<Self, GridError>)
        requires
            self.current().wf(),
        ensures
            r is Err <==> (self.current().spec_rows() == 0 || self.current().spec_columns() == 0),
            r is Err ==> r == Err::<Self, GridError>(GridError::DimensionMismatch),
            (r matches Ok(next) ==> {
                &&& next.current().wf()
                &&& next.current().spec_rows() == self.current().spec_rows()
                &&& next.current().spec_columns() == self.current().spec_columns()
                &&& forall|i: int, j: int|
                    self.current().in_bounds(i, j) ==> #[trigger] next.current().cell(i, j)
                        == self.rule_spec(
                        self.current().cell(i, j),
                        extract_spec(self.current(), i, j, self.topology_spec()),
                    )
            }),
    ;
}

} // verus!
