use vstd::prelude::*;

verus! {

/// The ways in which building a square or making a move can be refused.
/// Each is a recoverable validation failure; none of them changes anything.
#[derive(Debug, Clone, Copy, PartialEq, Eq, Structural)]
pub enum GameError {
    /// A square was asked for with a rank or a file outside `0..8`.
    OutOfRange,
    /// A move was asked for from an empty square.
    EmptySource,
    /// A move was asked for onto a square that already holds a piece.
    DestinationOccupied,
    /// A sliding piece would pass over an occupied square.
    PathBlocked,
    /// The piece does not move in that shape.
    IllegalMove,
    /// A piece was asked to become a pawn or a king.
    IllegalPromotion,
}

} // verus!
