//! Properties of the movement rules that hold for every board.
use vstd::prelude::*;

use crate::error::GameError;
use crate::piece::{PieceKind, Side};
use crate::position::on_board;
use crate::rules::{
    after_move, distance, forward, is_sliding, knight_shape, move_result, on_path,
    pawn_start_rank, piece_count, promotion_rank, queen_shape, shape_allows, square, Cell,
};

verus! {

/// 1 for an occupied cell, 0 for an empty one.
pub open spec fn occupied(c: Cell) -> nat {
    if c is Some {
        1
    } else {
        0
    }
}

/// Writing one cell changes the piece count by what the cell gained or lost.
pub proof fn lemma_count_update(s: Seq<Cell>, i: int, v: Cell)
    requires
        0 <= i < s.len(),
    ensures
        piece_count(s.update(i, v)) + occupied(s[i]) == piece_count(s) + occupied(v),
    decreases s.len(),
{
    let u = s.update(i, v);
    if i == s.len() - 1 {
        assert(u.drop_last() =~= s.drop_last());
    } else {
        assert(u.drop_last() =~= s.drop_last().update(i, v));
        lemma_count_update(s.drop_last(), i, v);
    }
}

/// A refused move leaves every cell as it was, and so the piece count too.
pub proof fn lemma_failed_move_changes_nothing(cells: Seq<Cell>, from: (int, int), to: (int, int))
    requires
        move_result(cells, from, to) is Err,
    ensures
        after_move(cells, from, to) == cells,
        piece_count(after_move(cells, from, to)) == piece_count(cells),
{
}

/// A move never creates or removes a piece: the piece count is the same after
/// it as before, whether it succeeds or not.
pub proof fn lemma_move_keeps_piece_count(cells: Seq<Cell>, from: (int, int), to: (int, int))
    requires
        cells.len() == 64,
        on_board(from),
        on_board(to),
    ensures
        piece_count(after_move(cells, from, to)) == piece_count(cells),
{
    if move_result(cells, from, to) is Ok {
        let emptied = cells.update(square(from), None);
        lemma_count_update(cells, square(from), None);
        lemma_count_update(emptied, square(to), Some(after_move(cells, from, to)[square(to)]->Some_0));
        assert(emptied[square(to)] is None);
    }
}

/// There are no captures: a move onto an occupied square is refused with
/// `DestinationOccupied`, whoever owns the piece there, and that piece stays.
pub proof fn lemma_no_capture(cells: Seq<Cell>, from: (int, int), to: (int, int))
    requires
        cells[square(to)] is Some,
    ensures
        move_result(cells, from, to) == Err::<(), GameError>(GameError::DestinationOccupied),
        after_move(cells, from, to) == cells,
        after_move(cells, from, to)[square(to)] == cells[square(to)],
{
}

/// A bishop, rook or queen moving along one of its lines onto an empty square
/// is refused with `PathBlocked` when any square it would pass over is occupied.
pub proof fn lemma_blocked_path(
    cells: Seq<Cell>,
    from: (int, int),
    to: (int, int),
    kind: PieceKind,
    side: Side,
    k: int,
)
    requires
        cells[square(to)] is None,
        cells[square(from)] == Some((kind, side)),
        is_sliding(kind),
        shape_allows(kind, side, from.0, to.0 - from.0, to.1 - from.1),
        0 < k < distance(from, to),
        cells[square(on_path(from, to, k))] is Some,
    ensures
        move_result(cells, from, to) == Err::<(), GameError>(GameError::PathBlocked),
        after_move(cells, from, to) == cells,
{
}

/// A pawn may advance two ranks onto an empty square exactly when it stands on
/// its starting rank; from anywhere else the move is refused with `IllegalMove`.
pub proof fn lemma_pawn_double_step(cells: Seq<Cell>, from: (int, int), side: Side)
    requires
        cells[square(from)] == Some((PieceKind::Pawn, side)),
        cells[square((from.0 + 2 * forward(side), from.1))] is None,
    ensures
        move_result(cells, from, (from.0 + 2 * forward(side), from.1)) is Ok <==> from.0
            == pawn_start_rank(side),
        from.0 != pawn_start_rank(side) ==> move_result(
            cells,
            from,
            (from.0 + 2 * forward(side), from.1),
        ) == Err::<(), GameError>(GameError::IllegalMove),
{
}

/// A pawn that advances onto its promotion rank becomes a queen of its side,
/// and from then on a move from that square is judged by the queen's shape.
pub proof fn lemma_promotion_to_queen(cells: Seq<Cell>, from: (int, int), side: Side)
    requires
        cells.len() == 64,
        on_board(from),
        from.0 == promotion_rank(side) - forward(side),
        cells[square(from)] == Some((PieceKind::Pawn, side)),
        cells[square((promotion_rank(side), from.1))] is None,
    ensures
        ({
            let to = (promotion_rank(side), from.1);
            let after = after_move(cells, from, to);
            &&& move_result(cells, from, to) is Ok
            &&& after[square(to)] == Some((PieceKind::Queen, side))
            &&& after[square(from)] is None
            &&& forall|next: (int, int)|
                on_board(next) && after[square(next)] is None ==> (move_result(after, to, next)
                    == Err::<(), GameError>(GameError::IllegalMove) <==> !queen_shape(
                    next.0 - to.0,
                    next.1 - to.1,
                ))
        }),
{
    let to = (promotion_rank(side), from.1);
    assert(square(from) != square(to));
}

/// A knight moving onto an empty square succeeds exactly when the move is one
/// rank and two files, or two ranks and one file; otherwise it is refused with
/// `IllegalMove`. On success the knight stands on the destination.
pub proof fn lemma_knight_moves(cells: Seq<Cell>, from: (int, int), to: (int, int), side: Side)
    requires
        cells.len() == 64,
        on_board(from),
        on_board(to),
        cells[square(from)] == Some((PieceKind::Knight, side)),
        cells[square(to)] is None,
    ensures
        move_result(cells, from, to) is Ok <==> knight_shape(to.0 - from.0, to.1 - from.1),
        !knight_shape(to.0 - from.0, to.1 - from.1) ==> move_result(cells, from, to) == Err::<
            (),
            GameError,
        >(GameError::IllegalMove),
        move_result(cells, from, to) is Ok ==> after_move(cells, from, to)[square(to)] == Some(
            (PieceKind::Knight, side),
        ) && after_move(cells, from, to)[square(from)] is None,
{
}

} // verus!
