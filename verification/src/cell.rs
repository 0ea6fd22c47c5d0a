//! A single grid cell: its life state and its own coordinate.
//!
//! The cell performs no validation of its own; the owning grid is
//! responsible for keeping a cell's stored position equal to the key
//! under which the grid holds it.

use vstd::prelude::*;

verus! {

/// The life state of one cell.
#[derive(Debug, Copy, Clone, PartialEq, Eq, Structural)]
pub enum CellState {
    Alive,
    Dead,
}

/// One cell of the board: a life state together with the cell's own
/// `(x, y)` coordinate.
#[derive(Debug, PartialEq)]
pub struct Cell {
    pub state: CellState,
    pub pos: (usize, usize),
}

impl Clone for Cell {
    /// A clone carries the same state and coordinate as the original.
    fn clone(&self) -> (r: Self)
        ensures
            r == *self,
    {
        Cell { state: self.state, pos: self.pos }
    }
}

impl Cell {
    /// Builds a cell with the given state and coordinate.
    pub fn new(state: CellState, pos: (usize, usize)) -> (r: Self)
        ensures
            r.state == state,
            r.pos == pos,
    {
        Self { state, pos }
    }

    /// Read access to the cell's life state.
    pub fn get_state(&self) -> (r: &CellState)
        ensures
            *r == self.state,
    {
        &self.state
    }

    /// Read access to the cell's coordinate.
    pub fn get_position(&self) -> (r: &(usize, usize))
        ensures
            *r == self.pos,
    {
        &self.pos
    }

    /// Moves the cell to a new coordinate, keeping its state.
    pub fn update(&mut self, pos: (usize, usize))
        ensures
            final(self).pos == pos,
            final(self).state == old(self).state,
    {
        self.pos = pos;
    }
}

} // verus!
