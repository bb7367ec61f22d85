//! Rules engine for a two-player tic-tac-toe match.

pub mod error;
pub mod game;
pub mod grid;
pub mod history;
pub mod identity;
pub mod laws;
pub mod model;
pub mod sign;
pub mod tile;
