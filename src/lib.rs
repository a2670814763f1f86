//! Ultimate tic-tac-toe: a 3×3 arrangement of ordinary tic-tac-toe boards.
//!
//! Positions on a board, and boards on the giant board, are numbered 1 to 9
//! in row-major order: `n` stands at row `(n - 1) / 3`, column `(n - 1) % 3`.
pub mod space;
pub mod board;
pub mod giant;
pub mod grid;
pub mod game;
