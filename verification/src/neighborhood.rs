//! Neighborhood shapes and their contents.
//!
//! A neighborhood is a fixed-arity record of `Option` slots, one per compass
//! direction. A slot holds `Some(state)` exactly when the corresponding
//! neighbor coordinate lies inside the grid; there is no wraparound, so edge
//! and corner cells simply have fewer populated slots. Slot presence is fully
//! determined by boundary geometry, never by the stored data.

use vstd::prelude::*;

use crate::grid::Grid;

verus! {

/// The fixed neighbor patterns an extraction can be asked for.
#[derive(Clone, Copy, Debug, PartialEq, Eq, Structural)]
pub enum Topology {
    /// The eight surrounding cells.
    Moore,
    /// The four orthogonal cells.
    VonNeumann,
    /// The four orthogonal cells plus the four orthogonal cells at distance two.
    ExtendedVonNeumann,
}

/// The Moore neighborhood: the eight cells surrounding a coordinate.
#[derive(Clone, Copy, Debug, PartialEq, Eq)]
pub struct MooreNeighborhood<S> {
    pub north: Option<S>,
    pub north_east: Option<S>,
    pub east: Option<S>,
    pub south_east: Option<S>,
    pub south: Option<S>,
    pub south_west: Option<S>,
    pub west: Option<S>,
    pub north_west: Option<S>,
}

/// The von Neumann neighborhood: the four orthogonal cells.
#[derive(Clone, Copy, Debug, PartialEq, Eq)]
pub struct VonNeumannNeighborhood<S> {
    pub north: Option<S>,
    pub east: Option<S>,
    pub south: Option<S>,
    pub west: Option<S>,
}

/// The extended von Neumann neighborhood: the four orthogonal cells plus the
/// four orthogonal cells at distance two.
#[derive(Clone, Copy, Debug, PartialEq, Eq)]
pub struct ExtendedVonNeumannNeighborhood<S> {
    pub north: Option<S>,
    pub east: Option<S>,
    pub south: Option<S>,
    pub west: Option<S>,
    pub north2: Option<S>,
    pub east2: Option<S>,
    pub south2: Option<S>,
    pub west2: Option<S>,
}

/// A neighborhood under one of the fixed topologies.
#[derive(Clone, Copy, Debug, PartialEq, Eq)]
pub enum Neighborhood<S> {
    Moore(MooreNeighborhood<S>),
    VonNeumann(VonNeumannNeighborhood<S>),
    ExtendedVonNeumann(ExtendedVonNeumannNeighborhood<S>),
}

/// The slot for the neighbor at offset `(dr, dc)` from `(row, column)`:
/// populated with that neighbor's state exactly when the offset coordinate
/// lies inside the grid.
pub open spec fn slot_at<S>(g: Grid<S>, row: int, column: int, dr: int, dc: int) -> Option<S> {
    if g.in_bounds(row + dr, column + dc) {
        Some(g.cell(row + dr, column + dc))
    } else {
        None
    }
}

/// The Moore neighborhood of `(row, column)` in `g`. A diagonal slot is
/// populated if and only if both its row and its column are within bounds.
pub open spec fn moore_spec<S>(g: Grid<S>, row: int, column: int) -> MooreNeighborhood<S> {
    MooreNeighborhood {
        north: slot_at(g, row, column, -1, 0),
        north_east: slot_at(g, row, column, -1, 1),
        east: slot_at(g, row, column, 0, 1),
        south_east: slot_at(g, row, column, 1, 1),
        south: slot_at(g, row, column, 1, 0),
        south_west: slot_at(g, row, column, 1, -1),
        west: slot_at(g, row, column, 0, -1),
        north_west: slot_at(g, row, column, -1, -1),
    }
}

/// The von Neumann neighborhood of `(row, column)` in `g`.
pub open spec fn von_neumann_spec<S>(g: Grid<S>, row: int, column: int) -> VonNeumannNeighborhood<
    S,
> {
    VonNeumannNeighborhood {
        north: slot_at(g, row, column, -1, 0),
        east: slot_at(g, row, column, 0, 1),
        south: slot_at(g, row, column, 1, 0),
        west: slot_at(g, row, column, 0, -1),
    }
}

/// The extended von Neumann neighborhood of `(row, column)` in `g`. Each
/// distance-2 slot is populated by its own bounds check, independent of the
/// distance-1 slot in the same direction.
pub open spec fn extended_von_neumann_spec<S>(
    g: Grid<S>,
    row: int,
    column: int,
) -> ExtendedVonNeumannNeighborhood<S> {
    ExtendedVonNeumannNeighborhood {
        north: slot_at(g, row, column, -1, 0),
        east: slot_at(g, row, column, 0, 1),
        south: slot_at(g, row, column, 1, 0),
        west: slot_at(g, row, column, 0, -1),
        north2: slot_at(g, row, column, -2, 0),
        east2: slot_at(g, row, column, 0, 2),
        south2: slot_at(g, row, column, 2, 0),
        west2: slot_at(g, row, column, 0, -2),
    }
}

/// The neighborhood of `(row, column)` in `g` under `topology`.
pub open spec fn extract_spec<S>(g: Grid<S>, row: int, column: int, topology: Topology) -> Neighborhood<S> {
    match topology {
        Topology::Moore => Neighborhood::Moore(moore_spec(g, row, column)),
        Topology::VonNeumann => Neighborhood::VonNeumann(von_neumann_spec(g, row, column)),
        Topology::ExtendedVonNeumann => Neighborhood::ExtendedVonNeumann(
            extended_von_neumann_spec(g, row, column),
        ),
    }
}

/// How many slots of a Moore neighborhood are populated.
pub open spec fn moore_populated_slots<S>(n: MooreNeighborhood<S>) -> int {
    (if n.north is Some { 1int } else { 0 }) + (if n.north_east is Some { 1int } else { 0 }) + (
    if n.east is Some { 1int } else { 0 }) + (if n.south_east is Some { 1int } else { 0 }) + (
    if n.south is Some { 1int } else { 0 }) + (if n.south_west is Some { 1int } else { 0 }) + (
    if n.west is Some { 1int } else { 0 }) + (if n.north_west is Some { 1int } else { 0 })
}

/// On a grid of size at least 3 x 3, the Moore neighborhood of a strictly
/// interior cell has exactly 8 populated slots, of a corner cell exactly 3,
/// and of an edge (non-corner) cell exactly 5.
pub proof fn lemma_moore_populated_counts<S>(g: Grid<S>, row: int, column: int)
    requires
        g.spec_rows() >= 3,
        g.spec_columns() >= 3,
        g.in_bounds(row, column),
    ensures
        (1 <= row < g.spec_rows() - 1 && 1 <= column < g.spec_columns() - 1) ==> moore_populated_slots(
            moore_spec(g, row, column),
        ) == 8,
        ((row == 0 || row == g.spec_rows() - 1) && (column == 0 || column == g.spec_columns() - 1))
            ==> moore_populated_slots(moore_spec(g, row, column)) == 3,
        ((row == 0 || row == g.spec_rows() - 1) != (column == 0 || column == g.spec_columns() - 1))
            ==> moore_populated_slots(moore_spec(g, row, column)) == 5,
{
}

/// Distance-2 slots of the extended von Neumann neighborhood are populated by
/// their own bounds check alone: whether a distance-1 slot is populated plays
/// no part.
pub proof fn lemma_extended_von_neumann_distance2_independent<S>(g: Grid<S>, row: int, column: int)
    requires
        g.in_bounds(row, column),
    ensures
        extended_von_neumann_spec(g, row, column).north2 is Some <==> row - 2 >= 0,
        extended_von_neumann_spec(g, row, column).south2 is Some <==> row + 2 < g.spec_rows(),
        extended_von_neumann_spec(g, row, column).west2 is Some <==> column - 2 >= 0,
        extended_von_neumann_spec(g, row, column).east2 is Some <==> column + 2 < g.spec_columns(),
{
}

} // verus!
