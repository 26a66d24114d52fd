//! A grid-based snake game: the state machine that moves the snake, detects
//! collisions with the walls and with itself, places food on free cells and
//! keeps the score.

pub mod game;
pub mod geometry;
mod random;
pub mod snake;

pub use game::{Game, GameView};
pub use geometry::{Direction, Point};
pub use snake::Snake;
