use game_of_life::cell::CellState;
use game_of_life::game::GameOfLife;
use game_of_life::grid::Grid;

/// A game over a `size` board with exactly the given coordinates alive.
fn game_with_live(size: (usize, usize), live: &[(usize, usize)]) -> GameOfLife {
    let mut grid = Grid::new(size);
    let seed: Vec<((usize, usize), CellState)> =
        live.iter().map(|&p| (p, CellState::Alive)).collect();
    grid.update(seed);
    GameOfLife::new(grid)
}

/// The live coordinates of a game's board, sorted.
fn live_set(game: &GameOfLife) -> Vec<(usize, usize)> {
    let size = *game.cell_grid.get_size();
    let mut live = Vec::new();
    for x in 0..size.0 {
        for y in 0..size.1 {
            if let Some(cell) = game.cell_grid.get_cell(&(x, y)) {
                if *cell.get_state() == CellState::Alive {
                    live.push((x, y));
                }
            }
        }
    }
    live.sort();
    live
}

/// The state of one cell after a single step from the given live pattern
/// on a 5 by 5 board.
fn state_after_one_step(live: &[(usize, usize)], p: (usize, usize)) -> CellState {
    let mut game = game_with_live((5, 5), live);
    game.update().expect("step on a well-formed board succeeds");
    *game
        .cell_grid
        .get_cell(&p)
        .expect("in-range lookup must succeed")
        .get_state()
}

#[test]
fn test_dead_cell_with_three_neighbors_is_born() {
    let state = state_after_one_step(&[(1, 1), (1, 2), (1, 3)], (2, 2));
    assert_eq!(state, CellState::Alive);
}

#[test]
fn test_live_cell_with_two_neighbors_survives() {
    let state = state_after_one_step(&[(2, 2), (1, 1), (1, 2)], (2, 2));
    assert_eq!(state, CellState::Alive);
}

#[test]
fn test_live_cell_with_three_neighbors_survives() {
    let state = state_after_one_step(&[(2, 2), (1, 1), (1, 2), (1, 3)], (2, 2));
    assert_eq!(state, CellState::Alive);
}

#[test]
fn test_live_cell_with_four_neighbors_dies() {
    let state = state_after_one_step(&[(2, 2), (1, 1), (1, 2), (1, 3), (2, 1)], (2, 2));
    assert_eq!(state, CellState::Dead);
}

#[test]
fn test_live_cell_with_no_neighbors_dies() {
    let state = state_after_one_step(&[(2, 2)], (2, 2));
    assert_eq!(state, CellState::Dead);
}

#[test]
fn test_live_cell_with_one_neighbor_dies() {
    let state = state_after_one_step(&[(2, 2), (1, 1)], (2, 2));
    assert_eq!(state, CellState::Dead);
}

#[test]
fn test_dead_cell_with_two_neighbors_stays_dead() {
    let state = state_after_one_step(&[(1, 1), (1, 2)], (2, 2));
    assert_eq!(state, CellState::Dead);
}

#[test]
fn test_dead_cell_with_four_neighbors_stays_dead() {
    let state = state_after_one_step(&[(1, 1), (1, 2), (1, 3), (2, 1)], (2, 2));
    assert_eq!(state, CellState::Dead);
}

#[test]
fn test_blinker_oscillates_with_period_two() {
    let horizontal = [(1, 2), (2, 2), (3, 2)];
    let mut game = game_with_live((5, 5), &horizontal);

    game.update().expect("step succeeds");
    assert_eq!(live_set(&game), vec![(2, 1), (2, 2), (2, 3)]);

    game.update().expect("step succeeds");
    assert_eq!(live_set(&game), vec![(1, 2), (2, 2), (3, 2)]);
}

#[test]
fn test_glider_wraps_around_the_torus() {
    // A glider near the corner of a 6 by 6 toroidal board travels one cell
    // diagonally every four generations; after 24 generations it has
    // crossed the edges and returned to its starting cells.
    let glider = [(1, 0), (2, 1), (0, 2), (1, 2), (2, 2)];
    let mut game = game_with_live((6, 6), &glider);
    let start = live_set(&game);

    let mut returned_early = false;
    for step in 1..=24 {
        game.update().expect("step succeeds");
        if step < 24 && live_set(&game) == start {
            returned_early = true;
        }
    }
    assert!(!returned_early);
    assert_eq!(live_set(&game), start);
    assert_eq!(game.get_evolution(), 24);
}

#[test]
fn test_identical_runs_are_deterministic() {
    let seed = [(1, 0), (2, 1), (0, 2), (1, 2), (2, 2), (4, 4), (3, 3)];
    let mut first = game_with_live((6, 6), &seed);
    let mut second = game_with_live((6, 6), &seed);
    for _ in 0..10 {
        first.update().expect("step succeeds");
        second.update().expect("step succeeds");
        assert_eq!(live_set(&first), live_set(&second));
    }
    assert_eq!(first.get_evolution(), second.get_evolution());
}

#[test]
fn test_evolution_counts_generations() {
    let mut game = game_with_live((5, 5), &[(1, 2), (2, 2), (3, 2)]);
    assert_eq!(game.get_evolution(), 0);
    for expected in 1..=3 {
        game.update().expect("step succeeds");
        assert_eq!(game.get_evolution(), expected);
    }
}

#[test]
fn test_default_game_holds_gosper_gun() {
    let game = GameOfLife::default();
    assert_eq!(game.get_evolution(), 0);
    assert_eq!(*game.cell_grid.get_size(), (100, 200));
    for p in [(20, 27), (37, 28), (44, 29), (55, 26)] {
        let cell = game.cell_grid.get_cell(&p).expect("in range");
        assert_eq!(*cell.get_state(), CellState::Alive);
    }
    for p in [(0, 0), (20, 26), (99, 199), (56, 25)] {
        let cell = game.cell_grid.get_cell(&p).expect("in range");
        assert_eq!(*cell.get_state(), CellState::Dead);
    }
}

#[test]
fn test_default_game_steps() {
    let mut game = GameOfLife::default();
    game.update().expect("step succeeds");
    assert_eq!(game.get_evolution(), 1);
    // The four corner-most gun cells form two blocks, which are still
    // lifes: they survive the first step.
    for p in [(20, 27), (20, 28), (21, 27), (21, 28)] {
        let cell = game.cell_grid.get_cell(&p).expect("in range");
        assert_eq!(*cell.get_state(), CellState::Alive);
    }
}
