//! Conway's Game of Life, the reference automaton instance.
//!
//! The reference rule counts the populated neighbor slots whose state is
//! Alive: the next state is Dead when that count is below 2 or above 3, and
//! Alive otherwise. The rule deliberately does not condition on the cell's
//! own current state; that simplification is part of this design, distinct
//! from the textbook variant in which only a dead cell with exactly 3 live
//! neighbors becomes alive.

use vstd::prelude::*;

use crate::automaton::Automaton;
use crate::engine::SteppingEngine;
use crate::engine::stepped_cell;
use crate::extractor::NeighborhoodExtractor;
use crate::grid::Coordinate;
use crate::grid::Grid;
use crate::grid::GridError;
use crate::neighborhood::ExtendedVonNeumannNeighborhood;
use crate::neighborhood::MooreNeighborhood;
use crate::neighborhood::Neighborhood;
use crate::neighborhood::Topology;
use crate::neighborhood::VonNeumannNeighborhood;
use crate::rule::TransitionRule;
use crate::state_array::StateArray;
use crate::state_array::state_array_dim;
use crate::state_array::state_array_view;

verus! {

/// The two cell states of the Game of Life.
#[derive(Clone, Copy, Debug, PartialEq, Eq, Structural)]
pub enum GameState {
    Alive,
    Dead,
}

impl GameState {
    /// The display glyph of a state: `#` for Alive, a blank for Dead.
    pub fn symbol(&self) -> (c: char)
        ensures
            c == (match *self {
                GameState::Alive => '#',
                GameState::Dead => ' ',
            }),
    {
        match self {
            GameState::Alive => '#',
            GameState::Dead => ' ',
        }
    }

    /// Whether the state is Alive.
    pub fn is_alive(&self) -> (r: bool)
        ensures
            r <==> *self == GameState::Alive,
    {
        match self {
            GameState::Alive => true,
            GameState::Dead => false,
        }
    }

    /// Whether the state is Dead.
    pub fn is_dead(&self) -> (r: bool)
        ensures
            r <==> *self == GameState::Dead,
    {
        match self {
            GameState::Alive => false,
            GameState::Dead => true,
        }
    }
}

/// 1 if the slot is populated with an Alive state, 0 otherwise.
pub open spec fn live_slot(slot: Option<GameState>) -> int {
    match slot {
        Some(GameState::Alive) => 1,
        _ => 0,
    }
}

/// How many populated slots of a Moore neighborhood hold Alive.
pub open spec fn moore_live_neighbors(n: MooreNeighborhood<GameState>) -> int {
    live_slot(n.north) + live_slot(n.north_east) + live_slot(n.east) + live_slot(n.south_east)
        + live_slot(n.south) + live_slot(n.south_west) + live_slot(n.west) + live_slot(
        n.north_west,
    )
}

/// How many populated slots of a von Neumann neighborhood hold Alive.
pub open spec fn von_neumann_live_neighbors(n: VonNeumannNeighborhood<GameState>) -> int {
    live_slot(n.north) + live_slot(n.east) + live_slot(n.south) + live_slot(n.west)
}

/// How many populated slots of an extended von Neumann neighborhood hold Alive.
pub open spec fn extended_von_neumann_live_neighbors(
    n: ExtendedVonNeumannNeighborhood<GameState>,
) -> int {
    live_slot(n.north) + live_slot(n.east) + live_slot(n.south) + live_slot(n.west) + live_slot(
        n.north2,
    ) + live_slot(n.east2) + live_slot(n.south2) + live_slot(n.west2)
}

/// How many populated slots of a neighborhood hold Alive.
pub open spec fn live_neighbors(neighborhood: Neighborhood<GameState>) -> int {
    match neighborhood {
        Neighborhood::Moore(n) => moore_live_neighbors(n),
        Neighborhood::VonNeumann(n) => von_neumann_live_neighbors(n),
        Neighborhood::ExtendedVonNeumann(n) => extended_von_neumann_live_neighbors(n),
    }
}

/// The reference rule: Dead when the living-neighbor count is below 2 or
/// above 3, Alive otherwise, whatever the cell's own current state.
pub open spec fn life_next(current: GameState, neighborhood: Neighborhood<GameState>) -> GameState {
    if live_neighbors(neighborhood) < 2 || live_neighbors(neighborhood) > 3 {
        GameState::Dead
    } else {
        GameState::Alive
    }
}

/// Counts the populated slots of `neighborhood` that hold Alive.
pub fn count_live_neighbors(neighborhood: &Neighborhood<GameState>) -> (c: u8)
    ensures
        c == live_neighbors(*neighborhood),
{
    let mut count: u8 = 0;
    match neighborhood {
        Neighborhood::Moore(n) => {
            count = count + live_slot_count(&n.north);
            count = count + live_slot_count(&n.north_east);
            count = count + live_slot_count(&n.east);
            count = count + live_slot_count(&n.south_east);
            count = count + live_slot_count(&n.south);
            count = count + live_slot_count(&n.south_west);
            count = count + live_slot_count(&n.west);
            count = count + live_slot_count(&n.north_west);
        },
        Neighborhood::VonNeumann(n) => {
            count = count + live_slot_count(&n.north);
            count = count + live_slot_count(&n.east);
            count = count + live_slot_count(&n.south);
            count = count + live_slot_count(&n.west);
        },
        Neighborhood::ExtendedVonNeumann(n) => {
            count = count + live_slot_count(&n.north);
            count = count + live_slot_count(&n.east);
            count = count + live_slot_count(&n.south);
            count = count + live_slot_count(&n.west);
            count = count + live_slot_count(&n.north2);
            count = count + live_slot_count(&n.east2);
            count = count + live_slot_count(&n.south2);
            count = count + live_slot_count(&n.west2);
        },
    }
    count
}

/// 1 if the slot is populated with an Alive state, 0 otherwise.
fn live_slot_count(slot: &Option<GameState>) -> (c: u8)
    ensures
        c == live_slot(*slot),
{
    match slot {
        Some(GameState::Alive) => 1,
        _ => 0,
    }
}

/// The reference Game-of-Life transition rule.
pub struct GameOfLifeRule;

impl TransitionRule<GameState> for GameOfLifeRule {
    open spec fn next_state_spec(
        &self,
        current: GameState,
        neighborhood: Neighborhood<GameState>,
    ) -> GameState {
        life_next(current, neighborhood)
    }

    #[allow(unused_variables)]
    fn next_state(&self, current: GameState, neighborhood: Neighborhood<GameState>) -> (r:
        GameState) {
        let count = count_live_neighbors(&neighborhood);
        if count < 2 || count > 3 {
            GameState::Dead
        } else {
            GameState::Alive
        }
    }
}

/// A Game-of-Life automaton: one generation of states, stepped under the
/// Moore topology and the reference rule.
pub struct GameOfLife {
    grid: Grid<GameState>,
}

impl GameOfLife {
    /// Builds an all-Dead game of `size.0` rows by `size.1` columns.
    pub fn new(size: (usize, usize)) -> (game: GameOfLife)
        requires
            size.0 > 0,
            size.1 > 0,
            size.0 * size.1 <= usize::MAX,
        ensures
            game.current().wf(),
            game.current().spec_rows() == size.0,
            game.current().spec_columns() == size.1,
            forall|i: int, j: int|
                game.current().in_bounds(i, j) ==> #[trigger] game.current().cell(i, j)
                    == GameState::Dead,
    {
        match Grid::create(size.0, size.1, GameState::Dead) {
            Ok(grid) => GameOfLife { grid },
            Err(_) => vstd::pervasive::unreached(),
        }
    }

    /// Wraps a caller-seeded generation held in a state array. Rejects an
    /// array with zero rows or zero columns with `InvalidDimensions`;
    /// otherwise the game's grid holds exactly the array's cells.
    pub fn from_grid(grid: StateArray) -> (r: Result<GameOfLife, GridError>)
        ensures
            r is Ok <==> (state_array_dim(grid).0 > 0 && state_array_dim(grid).1 > 0),
            r is Err ==> r == Err::<GameOfLife, GridError>(GridError::InvalidDimensions),
            (r matches Ok(game) ==> {
                &&& game.current().wf()
                &&& game.current().spec_rows() == state_array_dim(grid).0
                &&& game.current().spec_columns() == state_array_dim(grid).1
                &&& forall|i: int, j: int|
                    game.current().in_bounds(i, j) ==> #[trigger] game.current().cell(i, j)
                        == state_array_view(grid)[i][j]
            }),
    {
        let (cells, rows, columns) = grid.to_row_major();
        if rows == 0 || columns == 0 {
            return Err(GridError::InvalidDimensions);
        }
        proof {
            // a vector's length fits the machine word, so rows * columns does
            vstd::std_specs::vec::axiom_spec_len(&cells);
            crate::grid::lemma_row_major_bounds(0, 0, rows as int, columns as int);
        }
        let seed = cells[0];
        let mut out = match Grid::create(rows, columns, seed) {
            Ok(g) => g,
            Err(_) => vstd::pervasive::unreached(),
        };
        let mut row: usize = 0;
        while row < rows
            invariant
                row <= rows,
                rows > 0 && columns > 0,
                cells@.len() == rows as int * columns as int,
                rows as int * columns as int <= usize::MAX,
                forall|i: int, j: int|
                    0 <= i < rows as int && 0 <= j < columns as int ==> cells@[i * (
                    columns as int) + j] == state_array_view(grid)[i][j],
                out.wf(),
                out.spec_rows() == rows,
                out.spec_columns() == columns,
                forall|i: int, j: int|
                    0 <= i < row && 0 <= j < columns ==> #[trigger] out.cell(i, j)
                        == state_array_view(grid)[i][j],
            decreases rows - row,
        {
            let mut column: usize = 0;
            while column < columns
                invariant
                    row < rows,
                    column <= columns,
                    rows > 0 && columns > 0,
                    cells@.len() == rows as int * columns as int,
                    rows as int * columns as int <= usize::MAX,
                    forall|i: int, j: int|
                        0 <= i < rows as int && 0 <= j < columns as int ==> cells@[i * (
                        columns as int) + j] == state_array_view(grid)[i][j],
                    out.wf(),
                    out.spec_rows() == rows,
                    out.spec_columns() == columns,
                    forall|i: int, j: int|
                        (0 <= i < row && 0 <= j < columns) || (i == row && 0 <= j < column)
                            ==> #[trigger] out.cell(i, j) == state_array_view(grid)[i][j],
                decreases columns - column,
            {
                proof {
                    crate::grid::lemma_row_major_bounds(
                        row as int,
                        column as int,
                        rows as int,
                        columns as int,
                    );
                }
                let state = cells[row * columns + column];
                let _ = out.set(Coordinate { row, column }, state);
                column = column + 1;
            }
            row = row + 1;
        }
        Ok(GameOfLife { grid: out })
    }

    /// Copies the current generation into a fresh state array, the inverse of
    /// `from_grid`. Returns `None` only when the grid's shape exceeds what a
    /// state array can address.
    pub fn to_state_array(&self) -> (r: Option<StateArray>)
        requires
            self.current().wf(),
        ensures
            (self.current().spec_rows() <= isize::MAX as int && self.current().spec_columns()
                <= isize::MAX as int && self.current().spec_rows() * self.current().spec_columns()
                <= isize::MAX as int) ==> r is Some,
            (r matches Some(a) ==> {
                &&& state_array_dim(a) == (self.current().spec_rows(), self.current().spec_columns())
                &&& state_array_view(a).len() == self.current().spec_rows()
                &&& forall|i: int|
                    0 <= i < self.current().spec_rows() ==> (#[trigger] state_array_view(a)[i]).len()
                        == self.current().spec_columns()
                &&& forall|i: int, j: int|
                    self.current().in_bounds(i, j) ==> state_array_view(a)[i][j]
                        == self.current().cell(i, j)
            }),
    {
        let (rows, columns) = self.grid.dimensions();
        proof {
            self.grid.lemma_wf_size();
        }
        let mut cells: Vec<GameState> = Vec::new();
        let mut row: usize = 0;
        while row < rows
            invariant
                self.grid.wf(),
                rows == self.grid.spec_rows(),
                columns == self.grid.spec_columns(),
                row <= rows,
                cells@.len() == row as int * columns as int,
                rows as int * columns as int <= usize::MAX,
                forall|i: int, j: int|
                    0 <= i < row && 0 <= j < columns ==> cells@[i * (columns as int) + j]
                        == self.grid.cell(i, j),
            decreases rows - row,
        {
            let mut column: usize = 0;
            while column < columns
                invariant
                    self.grid.wf(),
                    rows == self.grid.spec_rows(),
                    columns == self.grid.spec_columns(),
                    row < rows,
                    column <= columns,
                    cells@.len() == row as int * columns as int + column as int,
                    rows as int * columns as int <= usize::MAX,
                    forall|i: int, j: int|
                        (0 <= i < row && 0 <= j < columns) || (i == row && 0 <= j < column)
                            ==> cells@[i * (columns as int) + j] == self.grid.cell(i, j),
                decreases columns - column,
            {
                cells.push(self.grid.state_at(row, column));
                proof {
                    assert forall|i: int, j: int| 0 <= i < row && 0 <= j < columns implies #[trigger] (
                    i * (columns as int) + j) < row as int * (columns as int) by {
                        crate::grid::lemma_row_major_bounds(i, j, row as int, columns as int);
                    }
                }
                column = column + 1;
            }
            proof {
                assert((row as int + 1) * (columns as int) == row as int * (columns as int) + (
                columns as int)) by (nonlinear_arith);
            }
            row = row + 1;
        }
        StateArray::from_row_major(rows, columns, cells)
    }
}

impl Automaton for GameOfLife {
    type State = GameState;

    closed spec fn current(&self) -> Grid<GameState> {
        self.grid
    }

    open spec fn topology_spec(&self) -> Topology {
        Topology::Moore
    }

    open spec fn rule_spec(
        &self,
        current: GameState,
        neighborhood: Neighborhood<GameState>,
    ) -> GameState {
        life_next(current, neighborhood)
    }

    fn get_grid(&self) -> (g: &Grid<GameState>) {
        &self.grid
    }

    fn next_state_of(&self, coordinate: Coordinate) -> (r: GameState) {
        let neighborhood = NeighborhoodExtractor::extract(&self.grid, coordinate, Topology::Moore);
        let current = self.grid.state_at(coordinate.row, coordinate.column);
        GameOfLifeRule.next_state(current, neighborhood)
    }

    fn moore_neighborhood_of(&self, coordinate: Coordinate) -> (r: MooreNeighborhood<GameState>) {
        NeighborhoodExtractor::moore_neighborhood_of(&self.grid, coordinate)
    }

    fn vn_neighborhood_of(&self, coordinate: Coordinate) -> (r: VonNeumannNeighborhood<GameState>) {
        NeighborhoodExtractor::vn_neighborhood_of(&self.grid, coordinate)
    }

    fn extended_vn_neighborhood_of(&self, coordinate: Coordinate) -> (r:
        ExtendedVonNeumannNeighborhood<GameState>) {
        NeighborhoodExtractor::extended_vn_neighborhood_of(&self.grid, coordinate)
    }

    fn step(&self) -> (r: Result<GameOfLife, GridError>) {
        match SteppingEngine::step(&self.grid, Topology::Moore, &GameOfLifeRule) {
            Ok(grid) => Ok(GameOfLife { grid }),
            Err(e) => Err(e),
        }
    }
}

/// Every cell of `g` is Dead.
pub open spec fn all_dead(g: Grid<GameState>) -> bool {
    forall|i: int, j: int| g.in_bounds(i, j) ==> #[trigger] g.cell(i, j) == GameState::Dead
}

/// An all-Dead grid of any size is a fixed point of the reference rule: a
/// grid whose every cell was computed by one synchronous sweep of the
/// reference rule under the Moore topology from an all-Dead grid is all-Dead
/// again.
pub proof fn lemma_all_dead_fixed_point(g: Grid<GameState>, g2: Grid<GameState>)
    requires
        g.wf(),
        all_dead(g),
        g2.spec_rows() == g.spec_rows(),
        g2.spec_columns() == g.spec_columns(),
        forall|i: int, j: int|
            g.in_bounds(i, j) ==> #[trigger] g2.cell(i, j) == stepped_cell(
                g,
                Topology::Moore,
                GameOfLifeRule,
                i,
                j,
            ),
    ensures
        all_dead(g2),
{
    assert forall|i: int, j: int| g2.in_bounds(i, j) implies #[trigger] g2.cell(i, j)
        == GameState::Dead by {
        assert(g.in_bounds(i, j));
        let n = crate::neighborhood::moore_spec(g, i, j);
        assert(live_slot(n.north) == 0);
        assert(live_slot(n.north_east) == 0);
        assert(live_slot(n.east) == 0);
        assert(live_slot(n.south_east) == 0);
        assert(live_slot(n.south) == 0);
        assert(live_slot(n.south_west) == 0);
        assert(live_slot(n.west) == 0);
        assert(live_slot(n.north_west) == 0);
    }
}

} // verus!
