//! The simulation core of a grid snake game: a toroidal board, a snake that
//! moves, grows and may bite itself, and food placed away from the body.

pub mod grid;
pub mod food;
pub mod game;
pub mod snake;

pub use grid::{Direction, SnakePiece};
pub use food::Food;
pub use game::{Game, GameResult};
pub use snake::Snake;
