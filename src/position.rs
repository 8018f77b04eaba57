use vstd::prelude::*;

use crate::error::GameError;

verus! {

/// A square of the board, given by its rank (row) and its file (column),
/// each in `0..8`.
#[derive(Debug, Clone, Copy, PartialEq, Eq, Structural)]
pub struct Position {
    rank: u8,
    file: u8,
}

impl View for Position {
    /// The square as `(rank, file)`.
    type V = (int, int);

    closed spec fn view(&self) -> (int, int) {
        (self.rank as int, self.file as int)
    }
}

/// Whether `(rank, file)` names a square of the board.
pub open spec fn on_board(sq: (int, int)) -> bool {
    0 <= sq.0 < 8 && 0 <= sq.1 < 8
}

impl Position {
    #[verifier::type_invariant]
    spec fn in_board(self) -> bool {
        self.rank < 8 && self.file < 8
    }

    /// The square on file `x` (column) and rank `y` (row); refused with
    /// `OutOfRange` when either is 8 or more.
    pub fn new(x: u8, y: u8) -> (r: Result<Position, GameError>)
        ensures
            r is Ok <==> x < 8 && y < 8,
            r is Ok ==> r->Ok_0@ == (y as int, x as int),
            r is Err ==> r == Err::<Position, GameError>(GameError::OutOfRange),
    {
        if x > 7 || y > 7 {
            return Err(GameError::OutOfRange);
        }
        Ok(Position { rank: y, file: x })
    }

    /// Two squares are the same exactly when they have the same rank and file.
    pub proof fn lemma_view_injective(p: Position, q: Position)
        ensures
            p@ == q@ <==> p == q,
    {
    }

    /// The file (column) of the square.
    pub fn x(&self) -> (r: u8)
        ensures
            r as int == self@.1,
            r < 8,
    {
        proof {
            use_type_invariant(self);
        }
        self.file
    }

    /// The rank (row) of the square.
    pub fn y(&self) -> (r: u8)
        ensures
            r as int == self@.0,
            r < 8,
    {
        proof {
            use_type_invariant(self);
        }
        self.rank
    }
}

/// The square that a file letter `a`..`h` and a rank digit `1`..`8` name, as
/// in `e4`: the letter gives file 0 to 7, the digit rank 0 to 7.
pub open spec fn notation_square(file: char, rank: char) -> Option<(int, int)> {
    if 'a' <= file <= 'h' && '1' <= rank <= '8' {
        Some(((rank as int) - ('1' as int), (file as int) - ('a' as int)))
    } else {
        None
    }
}

/// Reads a square written as a file letter and a rank digit (`e4`); `None`
/// when either character is outside `a`..`h` or `1`..`8`.
pub fn parse_square(file: char, rank: char) -> (r: Option<Position>)
    ensures
        r is Some <==> notation_square(file, rank) is Some,
        r is Some ==> r->Some_0@ == notation_square(file, rank)->Some_0,
{
    if 'a' <= file && file <= 'h' && '1' <= rank && rank <= '8' {
        let y = (rank as u32 - '1' as u32) as u8;
        let x = (file as u32 - 'a' as u32) as u8;
        match Position::new(x, y) {
            Ok(p) => Some(p),
            Err(_) => None,
        }
    } else {
        None
    }
}

} // verus!
