use vstd::prelude::*;

use crate::error::GameError;
use crate::piece::{GamePiece, PieceKind, PieceModel, Side};
use crate::position::{on_board, Position};
use crate::rules::{
    abs, after_move, back_rank_kind, distance, initial_cell, initial_cells, landed,
    move_result, on_path, path_clear, piece_count, shape_allows, square, Cell,
    AUTO_PROMOTION,
};

verus! {

/// An 8×8 board: 64 cells, each holding at most one piece, the cell of rank
/// `r` and file `f` at index `r * 8 + f`.
#[derive(Debug)]
pub struct GameBoard {
    slots: [Option<GamePiece>; 64],
}

/// What the rules see in one cell.
pub open spec fn cell_view(c: Option<GamePiece>) -> Cell {
    match c {
        Some(p) => Some(p@),
        None => None,
    }
}

impl View for GameBoard {
    type V = Seq<Cell>;

    closed spec fn view(&self) -> Seq<Cell> {
        Seq::new(64, |i: int| cell_view(self.slots@[i]))
    }
}

impl GameBoard {
    /// Every board has 64 cells.
    pub proof fn lemma_cell_count(b: GameBoard)
        ensures
            b@.len() == 64,
    {
    }
}

/// The kind that stands on file `file` of a back rank.
fn back_rank_piece(file: usize) -> (r: PieceKind)
    ensures
        r == back_rank_kind(file as int),
{
    if file == 0 || file == 7 {
        PieceKind::Rook
    } else if file == 1 || file == 6 {
        PieceKind::Knight
    } else if file == 2 || file == 5 {
        PieceKind::Bishop
    } else if file == 3 {
        PieceKind::Queen
    } else {
        PieceKind::King
    }
}

fn abs_i32(x: i32) -> (r: i32)
    requires
        x > i32::MIN,
    ensures
        r as int == abs(x as int),
{
    if x < 0 {
        -x
    } else {
        x
    }
}

/// Decides `shape_allows` for deltas of a move between two squares.
fn shape_ok(kind: PieceKind, side: Side, from_rank: i32, dr: i32, df: i32) -> (r: bool)
    requires
        -8 < dr < 8,
        -8 < df < 8,
    ensures
        r == shape_allows(kind, side, from_rank as int, dr as int, df as int),
{
    let ar = abs_i32(dr);
    let af = abs_i32(df);
    match kind {
        PieceKind::Pawn => {
            let fwd: i32 = match side {
                Side::White => 1,
                Side::Black => -1,
            };
            let start: i32 = match side {
                Side::White => 1,
                Side::Black => 6,
            };
            df == 0 && (dr == fwd || (dr == 2 * fwd && from_rank == start))
        },
        PieceKind::Knight => (ar == 1 && af == 2) || (ar == 2 && af == 1),
        PieceKind::Bishop => dr != 0 && ar == af,
        PieceKind::Rook => (dr == 0) != (df == 0),
        PieceKind::Queen => ((dr == 0) != (df == 0)) || (dr != 0 && ar == af),
        PieceKind::King => ar <= 1 && af <= 1 && !(dr == 0 && df == 0),
    }
}

/// The character that stands for a cell when the board is drawn: a letter
/// for the piece's kind (the side is not shown), a blank for an empty cell.
pub open spec fn glyph(c: Cell) -> char {
    match c {
        None => ' ',
        Some(p) => match p.0 {
            PieceKind::Pawn => 'p',
            PieceKind::Bishop => 'b',
            PieceKind::Knight => 'k',
            PieceKind::Rook => 'r',
            PieceKind::Queen => 'q',
            PieceKind::King => 'K',
        },
    }
}

/// The board drawn as text: rank 0 first, each rank as eight glyphs from file
/// 0 to file 7 followed by a line break.
pub open spec fn drawing(cells: Seq<Cell>) -> Seq<char> {
    Seq::new(
        72,
        |i: int|
            if i % 9 == 8 {
                '\n'
            } else {
                glyph(cells[(i / 9) * 8 + i % 9])
            },
    )
}

fn glyph_of(c: Option<GamePiece>) -> (r: char)
    ensures
        r == glyph(cell_view(c)),
{
    match c {
        None => ' ',
        Some(p) => match p.kind() {
            PieceKind::Pawn => 'p',
            PieceKind::Bishop => 'b',
            PieceKind::Knight => 'k',
            PieceKind::Rook => 'r',
            PieceKind::Queen => 'q',
            PieceKind::King => 'K',
        },
    }
}

/// Relies on `String::push`: appends `c` to the end of `s`.
#[verifier::external_body]
fn push_char(s: &mut String, c: char)
    ensures
        final(s)@ == old(s)@.push(c),
{
    s.push(c);
}

impl GameBoard {
    /// A board in the starting arrangement: each side's pawns on its second
    /// rank and its other pieces on its back rank, every other cell empty.
    pub fn new() -> (b: GameBoard)
        ensures
            b@ == initial_cells(),
            piece_count(b@) == 32,
    {
        let mut slots: [Option<GamePiece>; 64] = vstd::array::array_fill_for_copy_types(None);
        assert forall|r: int, f: int| 0 <= r < 8 && 0 <= f < 8 implies #[trigger] cell_view(
            slots@[r * 8 + f],
        ) == None::<PieceModel> by {
            assert(slots@[r * 8 + f] == slots[r * 8 + f]);
        }
        let mut file: usize = 0;
        while file < 8
            invariant
                file <= 8,
                forall|r: int, f: int|
                    0 <= r < 8 && 0 <= f < 8 ==> #[trigger] cell_view(slots@[r * 8 + f]) == if f
                        < file || (2 <= r <= 5) {
                        initial_cell((r, f))
                    } else {
                        None
                    },
            decreases 8 - file,
        {
            let kind = back_rank_piece(file);
            slots[file] = Some(GamePiece::new(kind, Side::White));
            slots[8 + file] = Some(GamePiece::new(PieceKind::Pawn, Side::White));
            slots[48 + file] = Some(GamePiece::new(PieceKind::Pawn, Side::Black));
            slots[56 + file] = Some(GamePiece::new(kind, Side::Black));
            file += 1;
        }
        let b = GameBoard { slots };
        assert forall|i: int| 0 <= i < 64 implies b@[i] == initial_cells()[i] by {
            let r = i / 8;
            let f = i % 8;
            assert(i == r * 8 + f);
            assert(cell_view(slots@[r * 8 + f]) == initial_cell((r, f)));
        }
        assert(b@ =~= initial_cells());
        proof {
            lemma_initial_count();
        }
        b
    }

    /// The board drawn as text, one line per rank, rank 0 first.
    pub fn render(&self) -> (r: String)
        ensures
            r@ == drawing(self@),
    {
        let ghost target = drawing(self@);
        let mut out = String::new();
        let mut rank: usize = 0;
        while rank < 8
            invariant
                rank <= 8,
                target == drawing(self@),
                out@.len() == 9 * rank,
                forall|j: int| 0 <= j < out@.len() ==> out@[j] == target[j],
            decreases 8 - rank,
        {
            let mut file: usize = 0;
            while file < 8
                invariant
                    rank < 8,
                    file <= 8,
                    target == drawing(self@),
                    out@.len() == 9 * rank + file,
                    forall|j: int| 0 <= j < out@.len() ==> out@[j] == target[j],
                decreases 8 - file,
            {
                let c = glyph_of(self.slots[rank * 8 + file]);
                let ghost at = 9 * rank + file;
                assert(at / 9 == rank && at % 9 == file);
                assert(c == target[at]);
                push_char(&mut out, c);
                file += 1;
            }
            let ghost at = 9 * rank + 8;
            assert(at % 9 == 8);
            push_char(&mut out, '\n');
            rank += 1;
        }
        assert(out@ =~= target);
        out
    }

    /// Whether every square strictly between `(fr, ff)` and `(tr, tf)` is
    /// empty, for two distinct squares on one rank, file or diagonal.
    fn path_is_clear(&self, fr: i32, ff: i32, tr: i32, tf: i32) -> (r: bool)
        requires
            0 <= fr < 8 && 0 <= ff < 8 && 0 <= tr < 8 && 0 <= tf < 8,
            fr == tr || ff == tf || abs(tr - fr) == abs(tf - ff),
        ensures
            r == path_clear(self@, (fr as int, ff as int), (tr as int, tf as int)),
    {
        let ghost from = (fr as int, ff as int);
        let ghost to = (tr as int, tf as int);
        let dr = tr - fr;
        let df = tf - ff;
        let ar = abs_i32(dr);
        let af = abs_i32(df);
        let n = if ar >= af {
            ar
        } else {
            af
        };
        assert(n == distance(from, to));
        let mut k: i32 = 1;
        while k < n
            invariant
                1 <= k,
                n == distance(from, to),
                n < 8,
                dr == to.0 - from.0,
                df == to.1 - from.1,
                dr != 0 ==> abs(dr as int) == n,
                df != 0 ==> abs(df as int) == n,
                from == (fr as int, ff as int),
                to == (tr as int, tf as int),
                0 <= fr < 8 && 0 <= ff < 8 && 0 <= tr < 8 && 0 <= tf < 8,
                forall|j: int| 0 < j < k ==> (#[trigger] self@[square(on_path(from, to, j))]) is None,
            decreases n - k,
        {
            let r = if dr > 0 {
                fr + k
            } else if dr < 0 {
                fr - k
            } else {
                fr
            };
            let f = if df > 0 {
                ff + k
            } else if df < 0 {
                ff - k
            } else {
                ff
            };
            assert((r as int, f as int) == on_path(from, to, k as int));
            let idx = (r * 8 + f) as usize;
            if self.slots[idx].is_some() {
                assert(self@[square(on_path(from, to, k as int))] is Some);
                return false;
            }
            k += 1;
        }
        true
    }

    /// Moves the piece on `src` to `dst`. The destination must be empty (there
    /// are no captures), the source must hold a piece, the piece must move in
    /// that shape, and a bishop, rook or queen must find every square between
    /// the two empty. A pawn that reaches the far rank becomes a queen. On
    /// success only the two cells change; on failure nothing does.
    pub fn move_piece(&mut self, src: Position, dst: Position) -> (r: Result<(), GameError>)
        ensures
            old(self)@.len() == 64,
            on_board(src@) && on_board(dst@),
            r == move_result(old(self)@, src@, dst@),
            final(self)@ == after_move(old(self)@, src@, dst@),
    {
        let fr = src.y() as i32;
        let ff = src.x() as i32;
        let tr = dst.y() as i32;
        let tf = dst.x() as i32;
        let si = (fr * 8 + ff) as usize;
        let di = (tr * 8 + tf) as usize;
        assert(si as int == square(src@) && di as int == square(dst@));
        assert(self@[di as int] == cell_view(self.slots@[di as int]));
        assert(self@[si as int] == cell_view(self.slots@[si as int]));
        if self.slots[di].is_some() {
            return Err(GameError::DestinationOccupied);
        }
        let mut piece = match self.slots[si] {
            Some(p) => p,
            None => {
                return Err(GameError::EmptySource);
            },
        };
        let kind = piece.kind();
        let side = piece.side();
        if !shape_ok(kind, side, fr, tr - fr, tf - ff) {
            return Err(GameError::IllegalMove);
        }
        let sliding = match kind {
            PieceKind::Bishop | PieceKind::Rook | PieceKind::Queen => true,
            _ => false,
        };
        if sliding && !self.path_is_clear(fr, ff, tr, tf) {
            return Err(GameError::PathBlocked);
        }
        let far_rank: i32 = match side {
            Side::White => 7,
            Side::Black => 0,
        };
        if kind == PieceKind::Pawn && tr == far_rank {
            match piece.promote(AUTO_PROMOTION) {
                Ok(()) => {},
                Err(e) => {
                    return Err(e);
                },
            }
        }
        assert(piece@ == landed(old(self)@[square(src@)]->Some_0, dst@.0));
        let ghost before = self@;
        self.slots[si] = None;
        self.slots[di] = Some(piece);
        assert(self@ =~= before.update(square(src@), None).update(square(dst@), Some(piece@)));
        Ok(())
    }
}

/// The first `n` cells of the starting arrangement hold the pieces of the
/// first `n` squares: the 16 of ranks 0 and 1, then none up to rank 6.
proof fn lemma_initial_prefix_count(n: int)
    requires
        0 <= n <= 64,
    ensures
        piece_count(initial_cells().take(n)) == if n <= 16 {
            n
        } else if n <= 48 {
            16
        } else {
            n - 32
        },
    decreases n,
{
    let cells = initial_cells();
    if n > 0 {
        lemma_initial_prefix_count(n - 1);
        assert(cells.take(n).drop_last() =~= cells.take(n - 1));
        assert(cells[n - 1] == initial_cell(((n - 1) / 8, (n - 1) % 8)));
    } else {
        assert(cells.take(0) =~= Seq::<Cell>::empty());
    }
}

/// The starting arrangement holds 32 pieces.
proof fn lemma_initial_count()
    ensures
        piece_count(initial_cells()) == 32,
{
    lemma_initial_prefix_count(64);
    assert(initial_cells().take(64) =~= initial_cells());
}

impl Default for GameBoard {
    /// The starting arrangement, as `GameBoard::new` builds it.
    fn default() -> (b: GameBoard)
        ensures
            b@ == initial_cells(),
    {
        GameBoard::new()
    }
}

} // verus!
