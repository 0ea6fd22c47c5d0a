use game_of_life::cell::Cell;
use game_of_life::cell::CellState;

#[test]
fn test_cell_new() {
    let new_cell = Cell::new(CellState::Alive, (5, 5));

    let cell = Cell { state: CellState::Alive, pos: (5, 5) };

    assert_eq!(new_cell, cell);
}

#[test]
fn test_cell_get_state() {
    let cell = Cell { state: CellState::Alive, pos: (5, 5) };

    assert_eq!(*cell.get_state(), CellState::Alive);
}

#[test]
fn test_cell_get_position() {
    let cell = Cell { state: CellState::Alive, pos: (5, 5) };

    assert_eq!(*cell.get_state(), CellState::Alive);
}

#[test]
fn test_cell_update() {
    let mut cell = Cell { state: CellState::Alive, pos: (5, 5) };

    cell.update((10, 10));

    assert_eq!(*cell.get_position(), (10, 10));
}

#[test]
fn test_cell_clone_keeps_fields() {
    let cell = Cell { state: CellState::Dead, pos: (3, 7) };
    let copy = cell.clone();
    assert_eq!(copy, cell);
}
