use game_of_life::cell::CellState;
use game_of_life::grid::Grid;
use game_of_life::grid::PositionDescription;

/// The live coordinates of a board, sorted.
fn live_set(grid: &Grid) -> Vec<(usize, usize)> {
    let size = *grid.get_size();
    let mut live = Vec::new();
    for x in 0..size.0 {
        for y in 0..size.1 {
            if let Some(cell) = grid.get_cell(&(x, y)) {
                if *cell.get_state() == CellState::Alive {
                    live.push((x, y));
                }
            }
        }
    }
    live.sort();
    live
}

#[test]
fn test_grid_new() {
    let _ = Grid::new((10, 10));
}

#[test]
fn test_grid_update() {
    let mut new_grid = Grid::new((10, 10));

    let seed = vec![((3, 3), CellState::Alive)];

    new_grid.update(seed);
}

#[test]
fn test_grid_new_all_dead() {
    let grid = Grid::new((4, 6));
    assert_eq!(*grid.get_size(), (4, 6));
    assert_eq!(live_set(&grid), Vec::new());
    for x in 0..4 {
        for y in 0..6 {
            let cell = grid.get_cell(&(x, y)).expect("in-range lookup must succeed");
            assert_eq!(*cell.get_state(), CellState::Dead);
            assert_eq!(*cell.get_position(), (x, y));
        }
    }
}

#[test]
fn test_grid_update_applies_named_states() {
    let mut grid = Grid::new((5, 5));
    grid.update(vec![
        ((1, 2), CellState::Alive),
        ((3, 4), CellState::Alive),
        ((0, 0), CellState::Dead),
    ]);
    assert_eq!(live_set(&grid), vec![(1, 2), (3, 4)]);
    grid.update(vec![((1, 2), CellState::Dead)]);
    assert_eq!(live_set(&grid), vec![(3, 4)]);
}

#[test]
fn test_grid_update_last_entry_wins() {
    let mut grid = Grid::new((5, 5));
    grid.update(vec![((1, 1), CellState::Alive), ((1, 1), CellState::Dead)]);
    assert_eq!(live_set(&grid), Vec::new());
    grid.update(vec![((2, 2), CellState::Dead), ((2, 2), CellState::Alive)]);
    assert_eq!(live_set(&grid), vec![(2, 2)]);
}

#[test]
fn test_grid_update_ignores_out_of_range() {
    let mut grid = Grid::new((5, 5));
    grid.update(vec![
        ((5, 0), CellState::Alive),
        ((0, 5), CellState::Alive),
        ((100, 100), CellState::Alive),
        ((2, 2), CellState::Alive),
    ]);
    assert_eq!(live_set(&grid), vec![(2, 2)]);
}

#[test]
fn test_get_cell_out_of_range_is_none() {
    let grid = Grid::new((5, 5));
    assert!(grid.get_cell(&(5, 0)).is_none());
    assert!(grid.get_cell(&(0, 5)).is_none());
    assert!(grid.get_cell(&(4, 4)).is_some());
}

#[test]
fn test_position_classification_5x5() {
    let grid = Grid::new((5, 5));
    let class = |p: (usize, usize)| grid.get_position_description(&p).expect("in range");
    assert!(matches!(class((0, 0)), PositionDescription::BottomLeftCorner));
    assert!(matches!(class((0, 4)), PositionDescription::TopLeftCorner));
    assert!(matches!(class((4, 4)), PositionDescription::TopRightCorner));
    assert!(matches!(class((4, 0)), PositionDescription::BottomRightCorner));
    assert!(matches!(class((0, 2)), PositionDescription::LeftBound));
    assert!(matches!(class((4, 2)), PositionDescription::RightBound));
    assert!(matches!(class((2, 0)), PositionDescription::BottomBound));
    assert!(matches!(class((2, 4)), PositionDescription::TopBound));
    assert!(matches!(class((2, 2)), PositionDescription::Center));
}

#[test]
fn test_classification_out_of_range_is_error() {
    let grid = Grid::new((5, 5));
    assert!(grid.get_position_description(&(5, 2)).is_err());
    assert!(grid.get_position_description(&(2, 5)).is_err());
    assert!(grid.get_position_description(&(7, 7)).is_err());
}

#[test]
fn test_neighbors_out_of_range_is_error() {
    let grid = Grid::new((5, 5));
    assert!(grid.get_neighbors(&(5, 2)).is_err());
    assert!(grid.get_neighbors(&(2, 9)).is_err());
    assert!(grid.search_policy(&(6, 0)).is_err());
}

#[test]
fn test_neighbors_wrap_at_corner() {
    // On a 5-wide, 4-high board the neighbors of (0, 0) wrap to the
    // opposite edges on both axes.
    let grid = Grid::new((5, 4));
    let mut neighbors = grid.get_neighbors(&(0, 0)).expect("in range");
    neighbors.sort();
    let mut expected = vec![
        (4, 3),
        (4, 0),
        (4, 1),
        (0, 3),
        (0, 1),
        (1, 3),
        (1, 0),
        (1, 1),
    ];
    expected.sort();
    assert_eq!(neighbors, expected);
}

#[test]
fn test_neighbors_center_no_wrap() {
    let grid = Grid::new((5, 5));
    let mut neighbors = grid.get_neighbors(&(2, 2)).expect("in range");
    neighbors.sort();
    let mut expected = vec![
        (1, 1),
        (1, 2),
        (1, 3),
        (2, 1),
        (2, 3),
        (3, 1),
        (3, 2),
        (3, 3),
    ];
    expected.sort();
    assert_eq!(neighbors, expected);
}

#[test]
fn test_neighbors_eight_distinct_in_range_everywhere() {
    let grid = Grid::new((5, 4));
    for x in 0..5 {
        for y in 0..4 {
            let neighbors = grid.get_neighbors(&(x, y)).expect("in range");
            assert_eq!(neighbors.len(), 8);
            for &(nx, ny) in &neighbors {
                assert!(nx < 5 && ny < 4);
            }
            let mut deduped = neighbors.clone();
            deduped.sort();
            deduped.dedup();
            assert_eq!(deduped.len(), 8);
        }
    }
}

#[test]
fn test_row_chars_renders_live_cells() {
    let mut grid = Grid::new((5, 5));
    grid.update(vec![((1, 2), CellState::Alive), ((3, 2), CellState::Alive)]);
    assert_eq!(grid.row_chars(2), vec!['-', 'x', '-', 'x', '-']);
    assert_eq!(grid.row_chars(0), vec!['-', '-', '-', '-', '-']);
}

#[test]
fn test_grid_clone_keeps_cells() {
    let mut grid = Grid::new((5, 5));
    grid.update(vec![((1, 2), CellState::Alive), ((4, 0), CellState::Alive)]);
    let copy = grid.clone();
    assert_eq!(*copy.get_size(), *grid.get_size());
    assert_eq!(live_set(&copy), live_set(&grid));
}
