//! A two-dimensional cellular-automaton core.
//!
//! The crate stores a finite rectangular grid of per-cell states, extracts
//! each cell's local neighborhood under one of three fixed topologies (Moore,
//! von Neumann, extended von Neumann) with explicit boundary handling and no
//! wraparound, and advances a whole grid one generation at a time by applying
//! a caller-supplied transition rule uniformly to every cell. The reference
//! instance is Conway's Game of Life.

pub mod automaton;
pub mod engine;
pub mod extractor;
pub mod gol;
pub mod grid;
pub mod neighborhood;
pub mod rule;
pub mod state_array;

pub use automaton::Automaton;
pub use engine::SteppingEngine;
pub use extractor::NeighborhoodExtractor;
pub use gol::GameOfLife;
pub use gol::GameOfLifeRule;
pub use gol::GameState;
pub use grid::Coordinate;
pub use grid::Grid;
pub use grid::GridError;
pub use neighborhood::ExtendedVonNeumannNeighborhood;
pub use neighborhood::MooreNeighborhood;
pub use neighborhood::Neighborhood;
pub use neighborhood::Topology;
pub use neighborhood::VonNeumannNeighborhood;
pub use rule::TransitionRule;
pub use state_array::StateArray;
