use cellular::Automaton;
use cellular::Coordinate;
use cellular::GameOfLife;
use cellular::GameOfLifeRule;
use cellular::GameState;
use cellular::Grid;
use cellular::GridError;
use cellular::MooreNeighborhood;
use cellular::Neighborhood;
use cellular::SteppingEngine;
use cellular::StateArray;
use cellular::Topology;
use cellular::TransitionRule;
use cellular::gol::count_live_neighbors;

fn at(row: usize, column: usize) -> Coordinate {
    Coordinate { row, column }
}

/// A grid whose listed coordinates are Alive and all other cells Dead.
fn grid_with_live(rows: usize, columns: usize, live: &[(usize, usize)]) -> Grid<GameState> {
    let mut g = Grid::create(rows, columns, GameState::Dead).unwrap();
    for &(row, column) in live {
        g.set(at(row, column), GameState::Alive).unwrap();
    }
    g
}

/// A fully populated Moore neighborhood with `alive` Alive slots.
fn moore_with_alive(alive: usize) -> MooreNeighborhood<GameState> {
    let mut slots: [GameState; 8] = [GameState::Dead; 8];
    for i in 0..alive {
        slots[i] = GameState::Alive;
    }
    MooreNeighborhood {
        north: Some(slots[0]),
        north_east: Some(slots[1]),
        east: Some(slots[2]),
        south_east: Some(slots[3]),
        south: Some(slots[4]),
        south_west: Some(slots[5]),
        west: Some(slots[6]),
        north_west: Some(slots[7]),
    }
}

#[test]
fn symbols_of_the_two_states() {
    assert_eq!(GameState::Alive.symbol(), '#');
    assert_eq!(GameState::Dead.symbol(), ' ');
}

#[test]
fn alive_and_dead_predicates() {
    assert!(GameState::Alive.is_alive());
    assert!(!GameState::Alive.is_dead());
    assert!(GameState::Dead.is_dead());
    assert!(!GameState::Dead.is_alive());
}

#[test]
fn rule_follows_the_neighbor_count_exactly() {
    for alive in 0..=8 {
        let n = Neighborhood::Moore(moore_with_alive(alive));
        let expected = if alive < 2 || alive > 3 {
            GameState::Dead
        } else {
            GameState::Alive
        };
        assert_eq!(GameOfLifeRule.next_state(GameState::Dead, n), expected);
    }
}

#[test]
fn rule_ignores_the_cell_own_state() {
    for alive in 0..=8 {
        let n = Neighborhood::Moore(moore_with_alive(alive));
        let from_dead = GameOfLifeRule.next_state(GameState::Dead, n);
        let from_alive = GameOfLifeRule.next_state(GameState::Alive, n);
        assert_eq!(from_dead, from_alive);
    }
}

#[test]
fn live_neighbor_count_ignores_unpopulated_slots() {
    let n = MooreNeighborhood {
        north: Some(GameState::Alive),
        north_east: None,
        east: Some(GameState::Dead),
        south_east: None,
        south: Some(GameState::Alive),
        south_west: None,
        west: None,
        north_west: Some(GameState::Alive),
    };
    assert_eq!(count_live_neighbors(&Neighborhood::Moore(n)), 3);
}

#[test]
fn new_game_is_all_dead() {
    let game = GameOfLife::new((3, 4));
    let grid = game.get_grid();
    assert_eq!(grid.dimensions(), (3, 4));
    for row in 0..3 {
        for column in 0..4 {
            assert_eq!(grid.get(at(row, column)).unwrap(), GameState::Dead);
        }
    }
}

#[test]
fn step_preserves_dimensions() {
    for &(rows, columns) in &[(1, 1), (2, 7), (5, 3), (4, 4)] {
        let g = grid_with_live(rows, columns, &[(0, 0)]);
        let next = SteppingEngine::step(&g, Topology::Moore, &GameOfLifeRule).unwrap();
        assert_eq!(next.dimensions(), g.dimensions());
    }
}

#[test]
fn step_never_mutates_its_input() {
    let g = grid_with_live(4, 4, &[(1, 1), (1, 2), (2, 1), (2, 2)]);
    let mut before: Vec<GameState> = Vec::new();
    for row in 0..4 {
        for column in 0..4 {
            before.push(g.get(at(row, column)).unwrap());
        }
    }
    let _next = SteppingEngine::step(&g, Topology::Moore, &GameOfLifeRule).unwrap();
    let mut index: usize = 0;
    for row in 0..4 {
        for column in 0..4 {
            assert_eq!(g.get(at(row, column)).unwrap(), before[index]);
            index += 1;
        }
    }
}

#[test]
fn all_dead_grid_is_a_fixed_point() {
    for &(rows, columns) in &[(1, 1), (3, 3), (2, 6), (5, 4)] {
        let g = grid_with_live(rows, columns, &[]);
        let next = SteppingEngine::step(&g, Topology::Moore, &GameOfLifeRule).unwrap();
        for row in 0..rows {
            for column in 0..columns {
                assert_eq!(next.get(at(row, column)).unwrap(), GameState::Dead);
            }
        }
    }
}

#[test]
fn lone_center_cell_dies_and_wakes_nothing() {
    let g = grid_with_live(3, 3, &[(1, 1)]);
    let next = SteppingEngine::step(&g, Topology::Moore, &GameOfLifeRule).unwrap();
    for row in 0..3 {
        for column in 0..3 {
            assert_eq!(next.get(at(row, column)).unwrap(), GameState::Dead);
        }
    }
}

#[test]
fn block_cells_keep_three_live_neighbors_and_stay_alive() {
    // each cell of a 2x2 block sees exactly 3 live neighbors, so the rule
    // keeps all four alive
    let g = grid_with_live(4, 4, &[(1, 1), (1, 2), (2, 1), (2, 2)]);
    let next = SteppingEngine::step(&g, Topology::Moore, &GameOfLifeRule).unwrap();
    for &(row, column) in &[(1, 1), (1, 2), (2, 1), (2, 2)] {
        assert_eq!(next.get(at(row, column)).unwrap(), GameState::Alive);
    }
}

#[test]
fn block_neighbors_with_two_live_neighbors_wake_under_this_rule() {
    // the rule does not condition on the cell's own state, so a dead cell
    // with exactly 2 live neighbors becomes alive: only the corners, with a
    // single live neighbor each, stay dead
    let g = grid_with_live(4, 4, &[(1, 1), (1, 2), (2, 1), (2, 2)]);
    let next = SteppingEngine::step(&g, Topology::Moore, &GameOfLifeRule).unwrap();
    for row in 0..4 {
        for column in 0..4 {
            let corner = (row == 0 || row == 3) && (column == 0 || column == 3);
            let expected = if corner { GameState::Dead } else { GameState::Alive };
            assert_eq!(next.get(at(row, column)).unwrap(), expected);
        }
    }
}

#[test]
fn game_of_life_step_applies_the_rule() {
    let array = StateArray::from_row_major(
        3,
        3,
        vec![
            GameState::Dead,
            GameState::Alive,
            GameState::Dead,
            GameState::Dead,
            GameState::Alive,
            GameState::Dead,
            GameState::Dead,
            GameState::Alive,
            GameState::Dead,
        ],
    )
    .unwrap();
    let game = GameOfLife::from_grid(array).unwrap();
    let next = game.step().unwrap();
    let grid = next.get_grid();
    // the column's end cells see only the center (1 live neighbor) and die;
    // every other cell sees 2 or 3 live neighbors and wakes
    for row in 0..3 {
        for column in 0..3 {
            let expected = if (row, column) == (0, 1) || (row, column) == (2, 1) {
                GameState::Dead
            } else {
                GameState::Alive
            };
            assert_eq!(grid.get(at(row, column)).unwrap(), expected);
        }
    }
}

#[test]
fn next_state_of_matches_a_full_step() {
    let array = StateArray::from_row_major(
        3,
        3,
        vec![
            GameState::Alive,
            GameState::Dead,
            GameState::Alive,
            GameState::Dead,
            GameState::Dead,
            GameState::Dead,
            GameState::Alive,
            GameState::Dead,
            GameState::Alive,
        ],
    )
    .unwrap();
    let game = GameOfLife::from_grid(array).unwrap();
    let next = game.step().unwrap();
    for row in 0..3 {
        for column in 0..3 {
            assert_eq!(
                game.next_state_of(at(row, column)),
                next.get_grid().get(at(row, column)).unwrap()
            );
        }
    }
}

#[test]
fn neighborhood_methods_read_the_current_generation() {
    let array = StateArray::from_row_major(
        3,
        3,
        vec![
            GameState::Dead,
            GameState::Alive,
            GameState::Dead,
            GameState::Dead,
            GameState::Dead,
            GameState::Alive,
            GameState::Dead,
            GameState::Dead,
            GameState::Dead,
        ],
    )
    .unwrap();
    let game = GameOfLife::from_grid(array).unwrap();
    let moore = game.moore_neighborhood_of(at(1, 1));
    assert_eq!(moore.north, Some(GameState::Alive));
    assert_eq!(moore.east, Some(GameState::Alive));
    assert_eq!(moore.south, Some(GameState::Dead));
    let vn = game.vn_neighborhood_of(at(1, 1));
    assert_eq!(vn.north, Some(GameState::Alive));
    assert_eq!(vn.west, Some(GameState::Dead));
    let evn = game.extended_vn_neighborhood_of(at(0, 0));
    assert_eq!(evn.east, Some(GameState::Alive));
    assert_eq!(evn.south2, Some(GameState::Dead));
    assert_eq!(evn.north2, None);
}

#[test]
fn from_grid_lays_cells_out_row_major() {
    let array = StateArray::from_row_major(
        2,
        3,
        vec![
            GameState::Alive,
            GameState::Dead,
            GameState::Dead,
            GameState::Dead,
            GameState::Alive,
            GameState::Alive,
        ],
    )
    .unwrap();
    let game = GameOfLife::from_grid(array).unwrap();
    let grid = game.get_grid();
    assert_eq!(grid.dimensions(), (2, 3));
    assert_eq!(grid.get(at(0, 0)).unwrap(), GameState::Alive);
    assert_eq!(grid.get(at(0, 1)).unwrap(), GameState::Dead);
    assert_eq!(grid.get(at(0, 2)).unwrap(), GameState::Dead);
    assert_eq!(grid.get(at(1, 0)).unwrap(), GameState::Dead);
    assert_eq!(grid.get(at(1, 1)).unwrap(), GameState::Alive);
    assert_eq!(grid.get(at(1, 2)).unwrap(), GameState::Alive);
}

#[test]
fn state_array_round_trip_preserves_every_cell() {
    let pattern = vec![
        GameState::Alive,
        GameState::Dead,
        GameState::Alive,
        GameState::Dead,
        GameState::Dead,
        GameState::Alive,
    ];
    let array = StateArray::from_row_major(3, 2, pattern.clone()).unwrap();
    let game = GameOfLife::from_grid(array).unwrap();
    let back = game.to_state_array().unwrap();
    let again = GameOfLife::from_grid(back).unwrap();
    let grid = again.get_grid();
    assert_eq!(grid.dimensions(), (3, 2));
    for row in 0..3 {
        for column in 0..2 {
            assert_eq!(
                grid.get(at(row, column)).unwrap(),
                pattern[row * 2 + column]
            );
        }
    }
}

#[test]
fn state_array_rejects_a_length_mismatch() {
    let r = StateArray::from_row_major(2, 2, vec![GameState::Dead; 3]);
    assert!(r.is_none());
}

#[test]
fn from_grid_rejects_a_degenerate_array() {
    let empty = StateArray::from_row_major(0, 3, Vec::new()).unwrap();
    let r = GameOfLife::from_grid(empty);
    assert!(matches!(r, Err(GridError::InvalidDimensions)));
}
