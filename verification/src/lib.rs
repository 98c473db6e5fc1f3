//! Conway's Game of Life on a bounded rectangular grid.
//!
//! The grid is stored row-major; a generation step reads only the previous
//! generation and replaces the whole cell sequence at once.

pub mod cell;
pub mod controller;
pub mod grid;
pub mod laws;
pub mod life;
pub mod point;
mod random;

pub use cell::{CellState, NeighbourState};
pub use controller::{App, Event, KeyCode, KeyEvent, KeyEventKind};
pub use grid::Grid;
pub use point::Point;
