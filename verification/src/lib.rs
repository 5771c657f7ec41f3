//! Two-player tic-tac-toe: the squares, the board and its rules, and the
//! session that turns key presses into moves.

pub mod square;
pub mod grid;
pub mod board;
pub mod screen;
pub mod game;
pub mod laws;
