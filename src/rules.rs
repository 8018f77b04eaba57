//! The rules of movement, stated over plain values: a board is a sequence of
//! 64 cells indexed by `rank * 8 + file`, a square is a pair `(rank, file)`.
use vstd::prelude::*;

use crate::error::GameError;
use crate::piece::{PieceKind, PieceModel, Side};

verus! {

/// The contents of one cell: a piece, or nothing.
pub type Cell = Option<PieceModel>;

/// The kind that a pawn becomes on reaching the far rank.
pub const AUTO_PROMOTION: PieceKind = PieceKind::Queen;

/// Index of the cell of square `sq` in a board's cells.
pub open spec fn square(sq: (int, int)) -> int {
    sq.0 * 8 + sq.1
}

pub open spec fn abs(x: int) -> int {
    if x < 0 {
        -x
    } else {
        x
    }
}

/// The rank step of a pawn of `side` moving forward.
pub open spec fn forward(side: Side) -> int {
    match side {
        Side::White => 1,
        Side::Black => -1,
    }
}

/// The rank on which the pawns of `side` start.
pub open spec fn pawn_start_rank(side: Side) -> int {
    match side {
        Side::White => 1,
        Side::Black => 6,
    }
}

/// The rank on which a pawn of `side` is promoted: the opponent's back rank.
pub open spec fn promotion_rank(side: Side) -> int {
    match side {
        Side::White => 7,
        Side::Black => 0,
    }
}

/// Along a rank or a file, and not standing still.
pub open spec fn rook_shape(dr: int, df: int) -> bool {
    (dr == 0) != (df == 0)
}

/// Along a diagonal, and not standing still.
pub open spec fn bishop_shape(dr: int, df: int) -> bool {
    dr != 0 && abs(dr) == abs(df)
}

pub open spec fn queen_shape(dr: int, df: int) -> bool {
    rook_shape(dr, df) || bishop_shape(dr, df)
}

pub open spec fn knight_shape(dr: int, df: int) -> bool {
    (abs(dr) == 1 && abs(df) == 2) || (abs(dr) == 2 && abs(df) == 1)
}

/// One square in any direction.
pub open spec fn king_shape(dr: int, df: int) -> bool {
    abs(dr) <= 1 && abs(df) <= 1 && !(dr == 0 && df == 0)
}

/// Straight ahead along its file: one rank, or two from the starting rank.
pub open spec fn pawn_shape(side: Side, from_rank: int, dr: int, df: int) -> bool {
    df == 0 && (dr == forward(side) || (dr == 2 * forward(side) && from_rank == pawn_start_rank(
        side,
    )))
}

/// Whether a piece of `kind` and `side` on rank `from_rank` may move by
/// `dr` ranks and `df` files, whatever stands around it.
pub open spec fn shape_allows(kind: PieceKind, side: Side, from_rank: int, dr: int, df: int) -> bool {
    match kind {
        PieceKind::Pawn => pawn_shape(side, from_rank, dr, df),
        PieceKind::Knight => knight_shape(dr, df),
        PieceKind::Bishop => bishop_shape(dr, df),
        PieceKind::Rook => rook_shape(dr, df),
        PieceKind::Queen => queen_shape(dr, df),
        PieceKind::King => king_shape(dr, df),
    }
}

/// The pieces whose path must be free of other pieces.
pub open spec fn is_sliding(kind: PieceKind) -> bool {
    kind is Bishop || kind is Rook || kind is Queen
}

/// The offset after `k` unit steps in the direction of the sign of `d`.
pub open spec fn step(d: int, k: int) -> int {
    if d > 0 {
        k
    } else if d < 0 {
        -k
    } else {
        0
    }
}

/// Number of unit steps from `from` to `to`: the larger of the two distances.
pub open spec fn distance(from: (int, int), to: (int, int)) -> int {
    let dr = abs(to.0 - from.0);
    let df = abs(to.1 - from.1);
    if dr >= df {
        dr
    } else {
        df
    }
}

/// The square `k` unit steps from `from` towards `to`.
pub open spec fn on_path(from: (int, int), to: (int, int), k: int) -> (int, int) {
    (from.0 + step(to.0 - from.0, k), from.1 + step(to.1 - from.1, k))
}

/// Every square strictly between `from` and `to`, walking by unit steps, is empty.
pub open spec fn path_clear(cells: Seq<Cell>, from: (int, int), to: (int, int)) -> bool {
    forall|k: int| 0 < k < distance(from, to) ==> (#[trigger] cells[square(on_path(from, to, k))]) is None
}

/// What a move from `from` to `to` on `cells` gives, the checks taken in turn:
/// the destination must be empty (there are no captures), the source must hold
/// a piece, the piece must move in that shape, and a sliding piece must find
/// its path free. A sliding piece's path is only looked at along the lines it
/// moves on, so a move is never both of the wrong shape and blocked.
pub open spec fn move_result(cells: Seq<Cell>, from: (int, int), to: (int, int)) -> Result<
    (),
    GameError,
> {
    if cells[square(to)] is Some {
        Err(GameError::DestinationOccupied)
    } else if cells[square(from)] is None {
        Err(GameError::EmptySource)
    } else {
        let p = cells[square(from)]->Some_0;
        if !shape_allows(p.0, p.1, from.0, to.0 - from.0, to.1 - from.1) {
            Err(GameError::IllegalMove)
        } else if is_sliding(p.0) && !path_clear(cells, from, to) {
            Err(GameError::PathBlocked)
        } else {
            Ok(())
        }
    }
}

/// The piece `p` as it stands after landing on rank `to_rank`: a pawn that
/// reaches its promotion rank becomes an `AUTO_PROMOTION` piece of its side.
pub open spec fn landed(p: PieceModel, to_rank: int) -> PieceModel {
    if p.0 is Pawn && to_rank == promotion_rank(p.1) {
        (AUTO_PROMOTION, p.1)
    } else {
        p
    }
}

/// The cells after a move from `from` to `to`: on success the source is
/// emptied and the destination holds the landed piece; on failure nothing changes.
pub open spec fn after_move(cells: Seq<Cell>, from: (int, int), to: (int, int)) -> Seq<Cell> {
    if move_result(cells, from, to) is Ok {
        cells.update(square(from), None).update(
            square(to),
            Some(landed(cells[square(from)]->Some_0, to.0)),
        )
    } else {
        cells
    }
}

/// Number of occupied cells.
pub open spec fn piece_count(cells: Seq<Cell>) -> nat
    decreases cells.len(),
{
    if cells.len() == 0 {
        0
    } else {
        piece_count(cells.drop_last()) + if cells.last() is Some {
            1nat
        } else {
            0nat
        }
    }
}

/// The back-rank piece on file `file`, from left to right: rook, knight,
/// bishop, queen, king, bishop, knight, rook.
pub open spec fn back_rank_kind(file: int) -> PieceKind {
    if file == 0 || file == 7 {
        PieceKind::Rook
    } else if file == 1 || file == 6 {
        PieceKind::Knight
    } else if file == 2 || file == 5 {
        PieceKind::Bishop
    } else if file == 3 {
        PieceKind::Queen
    } else {
        PieceKind::King
    }
}

/// What square `sq` holds at the start of a game.
pub open spec fn initial_cell(sq: (int, int)) -> Cell {
    if sq.0 == 0 {
        Some((back_rank_kind(sq.1), Side::White))
    } else if sq.0 == 1 {
        Some((PieceKind::Pawn, Side::White))
    } else if sq.0 == 6 {
        Some((PieceKind::Pawn, Side::Black))
    } else if sq.0 == 7 {
        Some((back_rank_kind(sq.1), Side::Black))
    } else {
        None
    }
}

/// The cells at the start of a game.
pub open spec fn initial_cells() -> Seq<Cell> {
    Seq::new(64, |i: int| initial_cell((i / 8, i % 8)))
}

} // verus!
