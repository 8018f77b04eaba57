use vstd::prelude::*;

use crate::error::GameError;

verus! {

/// The two sides. White starts on ranks 0 and 1 and its pawns advance
/// towards rank 7; Black starts on ranks 6 and 7 and advances towards rank 0.
#[derive(Debug, Clone, Copy, PartialEq, Eq, Structural)]
pub enum Side {
    Black,
    White,
}

#[derive(Debug, Clone, Copy, PartialEq, Eq, Structural)]
pub enum PieceKind {
    Pawn,
    Knight,
    Bishop,
    Rook,
    Queen,
    King,
}

/// A piece as the rules see it: its kind and the side that owns it.
pub type PieceModel = (PieceKind, Side);

/// A piece standing on the board. Its square is not stored in it: the board
/// cell that holds it is its one place.
#[derive(Debug, Clone, Copy, PartialEq, Eq, Structural)]
pub struct GamePiece {
    kind: PieceKind,
    side: Side,
}

impl View for GamePiece {
    type V = PieceModel;

    closed spec fn view(&self) -> PieceModel {
        (self.kind, self.side)
    }
}

/// Whether a pawn may be promoted to `kind`: any kind but a pawn or a king.
pub open spec fn promotable_to(kind: PieceKind) -> bool {
    !(kind is Pawn || kind is King)
}

impl GamePiece {
    pub fn new(kind: PieceKind, side: Side) -> (r: GamePiece)
        ensures
            r@ == (kind, side),
    {
        GamePiece { kind, side }
    }

    pub fn side(&self) -> (r: Side)
        ensures
            r == self@.1,
    {
        self.side
    }

    pub fn kind(&self) -> (r: PieceKind)
        ensures
            r == self@.0,
    {
        self.kind
    }

    /// Turns the piece into one of kind `target`, keeping its side; refused
    /// with `IllegalPromotion`, leaving the piece as it was, when `target` is a
    /// pawn or a king.
    pub fn promote(&mut self, target: PieceKind) -> (r: Result<(), GameError>)
        ensures
            r is Ok <==> promotable_to(target),
            r is Ok ==> final(self)@ == (target, old(self)@.1),
            r is Err ==> r == Err::<(), GameError>(GameError::IllegalPromotion) && *final(self)
                == *old(self),
    {
        match target {
            PieceKind::Pawn | PieceKind::King => Err(GameError::IllegalPromotion),
            _ => {
                self.kind = target;
                Ok(())
            },
        }
    }
}

} // verus!
