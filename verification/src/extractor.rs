//! Neighborhood extraction with boundary handling.
//!
//! Given a grid, an in-bounds coordinate and a topology, the extractor
//! returns the populated neighborhood value. Each extraction is a pure
//! function of its three inputs: the postconditions pin every result to the
//! corresponding spec-level neighborhood, so extracting twice from the same
//! inputs yields identical results.

use vstd::prelude::*;

use crate::grid::Coordinate;
use crate::grid::Grid;
use crate::neighborhood::ExtendedVonNeumannNeighborhood;
use crate::neighborhood::MooreNeighborhood;
use crate::neighborhood::Neighborhood;
use crate::neighborhood::Topology;
use crate::neighborhood::VonNeumannNeighborhood;
use crate::neighborhood::extended_von_neumann_spec;
use crate::neighborhood::extract_spec;
use crate::neighborhood::moore_spec;
use crate::neighborhood::von_neumann_spec;

verus! {

/// Produces neighborhood values from a grid, a coordinate and a topology.
pub struct NeighborhoodExtractor;

impl NeighborhoodExtractor {
    /// The Moore neighborhood of `coordinate`: the eight surrounding cells,
    /// with a slot populated exactly when its coordinate is inside the grid.
    pub fn moore_neighborhood_of<S: Copy>(grid: &Grid<S>, coordinate: Coordinate) -> (r:
        MooreNeighborhood<S>)
        requires
            grid.wf(),
            grid.contains(coordinate),
        ensures
            r == moore_spec(*grid, coordinate.row as int, coordinate.column as int),
    {
        let row = coordinate.row;
        let column = coordinate.column;
        let (rows, columns) = grid.dimensions();
        MooreNeighborhood {
            north: if row > 0 {
                Some(grid.state_at(row - 1, column))
            } else {
                None
            },
            north_east: if row > 0 && columns - column > 1 {
                Some(grid.state_at(row - 1, column + 1))
            } else {
                None
            },
            east: if columns - column > 1 {
                Some(grid.state_at(row, column + 1))
            } else {
                None
            },
            south_east: if rows - row > 1 && columns - column > 1 {
                Some(grid.state_at(row + 1, column + 1))
            } else {
                None
            },
            south: if rows - row > 1 {
                Some(grid.state_at(row + 1, column))
            } else {
                None
            },
            south_west: if rows - row > 1 && column > 0 {
                Some(grid.state_at(row + 1, column - 1))
            } else {
                None
            },
            west: if column > 0 {
                Some(grid.state_at(row, column - 1))
            } else {
                None
            },
            north_west: if row > 0 && column > 0 {
                Some(grid.state_at(row - 1, column - 1))
            } else {
                None
            },
        }
    }

    /// The von Neumann neighborhood of `coordinate`: the four orthogonal
    /// cells, with a slot populated exactly when its coordinate is inside the
    /// grid.
    pub fn vn_neighborhood_of<S: Copy>(grid: &Grid<S>, coordinate: Coordinate) -> (r:
        VonNeumannNeighborhood<S>)
        requires
            grid.wf(),
            grid.contains(coordinate),
        ensures
            r == von_neumann_spec(*grid, coordinate.row as int, coordinate.column as int),
    {
        let row = coordinate.row;
        let column = coordinate.column;
        let (rows, columns) = grid.dimensions();
        VonNeumannNeighborhood {
            north: if row > 0 {
                Some(grid.state_at(row - 1, column))
            } else {
                None
            },
            east: if columns - column > 1 {
                Some(grid.state_at(row, column + 1))
            } else {
                None
            },
            south: if rows - row > 1 {
                Some(grid.state_at(row + 1, column))
            } else {
                None
            },
            west: if column > 0 {
                Some(grid.state_at(row, column - 1))
            } else {
                None
            },
        }
    }

    /// The extended von Neumann neighborhood of `coordinate`: the four
    /// orthogonal cells and the four orthogonal cells at distance two, each
    /// slot populated exactly when its own coordinate is inside the grid.
    pub fn extended_vn_neighborhood_of<S: Copy>(grid: &Grid<S>, coordinate: Coordinate) -> (r:
        ExtendedVonNeumannNeighborhood<S>)
        requires
            grid.wf(),
            grid.contains(coordinate),
        ensures
            r == extended_von_neumann_spec(*grid, coordinate.row as int, coordinate.column as int),
    {
        let row = coordinate.row;
        let column = coordinate.column;
        let (rows, columns) = grid.dimensions();
        let near = Self::vn_neighborhood_of(grid, coordinate);
        ExtendedVonNeumannNeighborhood {
            north: near.north,
            east: near.east,
            south: near.south,
            west: near.west,
            north2: if row >= 2 {
                Some(grid.state_at(row - 2, column))
            } else {
                None
            },
            east2: if columns - column > 2 {
                Some(grid.state_at(row, column + 2))
            } else {
                None
            },
            south2: if rows - row > 2 {
                Some(grid.state_at(row + 2, column))
            } else {
                None
            },
            west2: if column >= 2 {
                Some(grid.state_at(row, column - 2))
            } else {
                None
            },
        }
    }

    /// The neighborhood of `coordinate` under `topology`.
    pub fn extract<S: Copy>(grid: &Grid<S>, coordinate: Coordinate, topology: Topology) -> (r:
        Neighborhood<S>)
        requires
            grid.wf(),
            grid.contains(coordinate),
        ensures
            r == extract_spec(*grid, coordinate.row as int, coordinate.column as int, topology),
    {
        match topology {
            Topology::Moore => Neighborhood::Moore(
                Self::moore_neighborhood_of(grid, coordinate),
            ),
            Topology::VonNeumann => Neighborhood::VonNeumann(
                Self::vn_neighborhood_of(grid, coordinate),
            ),
            Topology::ExtendedVonNeumann => Neighborhood::ExtendedVonNeumann(
                Self::extended_vn_neighborhood_of(grid, coordinate),
            ),
        }
    }
}

} // verus!
