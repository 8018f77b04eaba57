//! A move-legality engine for chess-like games: squares, pieces and a board
//! whose single mutating operation checks and applies one move.
pub mod board;
pub mod error;
pub mod laws;
pub mod piece;
pub mod position;
pub mod rules;

pub use board::GameBoard;
pub use error::GameError;
pub use piece::{GamePiece, PieceKind, Side};
pub use position::{parse_square, Position};
