//! A knight on an 8x8 board, moved by single keystrokes toward a fixed square.
//!
//! The board model (coordinates, bounds, moves, key decoding and the text
//! rendering of the board) is verified; reading keys and writing to a terminal
//! are left to the caller.

pub mod piece;
pub mod render;
pub mod state;

pub use piece::{KnightMove, Piece};
pub use render::Render;
pub use state::{GameState, Square, TurnError};
