//! A falling-block puzzle on a fixed grid: the pieces, the board they land on,
//! and the rules that move a piece in answer to keys and to the clock.
//!
//! The board is modelled as the set of its filled cells and a piece at an
//! anchor as the set of cells it covers; every contract is stated over those
//! sets.

pub mod geometry;
pub mod display;
pub mod chance;
pub mod piece;
pub mod board;
pub mod game;
pub mod laws;

pub use board::{Board, Cell};
pub use game::{Command, Game, Key, Phase, Step};
pub use piece::Tetromino;
