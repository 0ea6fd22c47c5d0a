//! A verified implementation of Conway's Game of Life on a toroidal
//! (wrap-around) board.
//!
//! The library owns the grid model and the generation-stepping engine:
//! position classification, Moore-neighborhood derivation under toroidal
//! wrap, live-neighbor counting, and the two-phase (read, then commit)
//! generation update. Rendering and event handling are left to callers.

pub mod cell;
pub mod game;
pub mod grid;
