use chess::{parse_square, GameBoard, GameError, GamePiece, PieceKind, Position, Side};

/// The square on rank `rank` and file `file`.
fn at(rank: u8, file: u8) -> Position {
    Position::new(file, rank).unwrap()
}

fn mv(board: &mut GameBoard, from: (u8, u8), to: (u8, u8)) -> Result<(), GameError> {
    board.move_piece(at(from.0, from.1), at(to.0, to.1))
}

/// The glyph drawn for the square on rank `rank` and file `file`.
fn glyph_at(board: &GameBoard, rank: usize, file: usize) -> char {
    board.render().chars().nth(rank * 9 + file).unwrap()
}

const START: &str = "rkbqKbkr\npppppppp\n        \n        \n        \n        \npppppppp\nrkbqKbkr\n";

#[test]
fn position_accepts_every_square() {
    for x in 0..8u8 {
        for y in 0..8u8 {
            let p = Position::new(x, y).unwrap();
            assert_eq!(p.x(), x);
            assert_eq!(p.y(), y);
        }
    }
}

#[test]
fn position_first_argument_is_the_file() {
    let e2 = Position::new(4, 1).unwrap();
    assert_eq!(e2.x(), 4);
    assert_eq!(e2.y(), 1);
    assert_eq!(parse_square('e', '2'), Some(e2));
    let mut board = GameBoard::new();
    assert_eq!(board.move_piece(e2, Position::new(4, 3).unwrap()), Ok(()));
    assert_eq!(glyph_at(&board, 3, 4), 'p');
    assert_eq!(glyph_at(&board, 1, 4), ' ');
}

#[test]
fn equal_arguments_give_equal_positions() {
    assert_eq!(Position::new(2, 5), Position::new(2, 5));
    assert_ne!(Position::new(2, 5), Position::new(5, 2));
}

#[test]
fn default_board_is_the_starting_board() {
    assert_eq!(GameBoard::default().render(), START);
}

#[test]
fn position_rejects_out_of_range() {
    assert_eq!(Position::new(8, 0), Err(GameError::OutOfRange));
    assert_eq!(Position::new(0, 8), Err(GameError::OutOfRange));
    assert_eq!(Position::new(8, 8), Err(GameError::OutOfRange));
    assert_eq!(Position::new(255, 3), Err(GameError::OutOfRange));
    assert_eq!(Position::new(3, 200), Err(GameError::OutOfRange));
}

#[test]
fn parse_square_reads_notation() {
    assert_eq!(parse_square('a', '1'), Some(at(0, 0)));
    assert_eq!(parse_square('e', '4'), Some(at(3, 4)));
    assert_eq!(parse_square('h', '8'), Some(at(7, 7)));
    assert_eq!(parse_square('i', '1'), None);
    assert_eq!(parse_square('a', '9'), None);
    assert_eq!(parse_square('a', '0'), None);
    assert_eq!(parse_square('A', '1'), None);
}

#[test]
fn initial_board_has_standard_arrangement() {
    let board = GameBoard::new();
    assert_eq!(board.render(), START);
    let pieces = board.render().chars().filter(|c| *c != ' ' && *c != '\n').count();
    assert_eq!(pieces, 32);
}

#[test]
fn render_draws_moved_piece() {
    let mut board = GameBoard::new();
    assert_eq!(mv(&mut board, (1, 4), (3, 4)), Ok(()));
    assert_eq!(glyph_at(&board, 1, 4), ' ');
    assert_eq!(glyph_at(&board, 3, 4), 'p');
}

#[test]
fn rook_path_blocked() {
    let mut board = GameBoard::new();
    // Clear (0,5): the bishop there steps onto the square a pawn left.
    assert_eq!(mv(&mut board, (1, 6), (3, 6)), Ok(()));
    assert_eq!(mv(&mut board, (0, 5), (1, 6)), Ok(()));
    let before = board.render();
    assert_eq!(mv(&mut board, (0, 0), (0, 5)), Err(GameError::PathBlocked));
    assert_eq!(board.render(), before);
}

#[test]
fn bishop_path_blocked_by_own_pawn() {
    let mut board = GameBoard::new();
    assert_eq!(mv(&mut board, (0, 2), (2, 4)), Err(GameError::PathBlocked));
    assert_eq!(board.render(), START);
}

#[test]
fn pawn_double_step_from_start_rank() {
    let mut board = GameBoard::new();
    assert_eq!(mv(&mut board, (1, 3), (3, 3)), Ok(()));
    assert_eq!(glyph_at(&board, 3, 3), 'p');
    assert_eq!(glyph_at(&board, 1, 3), ' ');
}

#[test]
fn pawn_double_step_away_from_start_rank_fails() {
    let mut board = GameBoard::new();
    assert_eq!(mv(&mut board, (1, 3), (2, 3)), Ok(()));
    assert_eq!(mv(&mut board, (2, 3), (4, 3)), Err(GameError::IllegalMove));
    assert_eq!(mv(&mut board, (2, 3), (3, 3)), Ok(()));
}

#[test]
fn black_pawn_moves_down() {
    let mut board = GameBoard::new();
    assert_eq!(mv(&mut board, (6, 4), (4, 4)), Ok(()));
    assert_eq!(mv(&mut board, (4, 4), (2, 4)), Err(GameError::IllegalMove));
    assert_eq!(mv(&mut board, (4, 4), (5, 4)), Err(GameError::IllegalMove));
    assert_eq!(mv(&mut board, (4, 4), (3, 4)), Ok(()));
}

#[test]
fn pawn_backwards_and_sideways_fail() {
    let mut board = GameBoard::new();
    assert_eq!(mv(&mut board, (1, 1), (2, 1)), Ok(()));
    assert_eq!(mv(&mut board, (2, 1), (1, 1)), Err(GameError::IllegalMove));
    assert_eq!(mv(&mut board, (2, 1), (2, 0)), Err(GameError::IllegalMove));
    assert_eq!(mv(&mut board, (2, 1), (3, 2)), Err(GameError::IllegalMove));
}

#[test]
fn pawn_double_step_jumps_over_piece() {
    let mut board = GameBoard::new();
    assert_eq!(mv(&mut board, (0, 1), (2, 0)), Ok(()));
    assert_eq!(mv(&mut board, (1, 0), (3, 0)), Ok(()));
}

#[test]
fn knight_shapes() {
    let mut board = GameBoard::new();
    assert_eq!(mv(&mut board, (0, 1), (2, 2)), Ok(()));
    assert_eq!(glyph_at(&board, 2, 2), 'k');
    assert_eq!(mv(&mut board, (2, 2), (4, 4)), Err(GameError::IllegalMove));
    assert_eq!(mv(&mut board, (2, 2), (3, 2)), Err(GameError::IllegalMove));
    assert_eq!(mv(&mut board, (2, 2), (3, 4)), Ok(()));
    assert_eq!(glyph_at(&board, 3, 4), 'k');
}

#[test]
fn rook_and_bishop_shapes() {
    let mut board = GameBoard::new();
    assert_eq!(mv(&mut board, (1, 1), (3, 1)), Ok(()));
    assert_eq!(mv(&mut board, (0, 0), (1, 1)), Err(GameError::IllegalMove));
    assert_eq!(mv(&mut board, (1, 2), (3, 2)), Ok(()));
    assert_eq!(mv(&mut board, (0, 2), (2, 2)), Err(GameError::IllegalMove));
    assert_eq!(mv(&mut board, (0, 5), (2, 3)), Err(GameError::PathBlocked));
    assert_eq!(mv(&mut board, (1, 0), (3, 0)), Ok(()));
    assert_eq!(mv(&mut board, (0, 0), (2, 0)), Ok(()));
    assert_eq!(mv(&mut board, (2, 0), (2, 7)), Ok(()));
    assert_eq!(glyph_at(&board, 2, 7), 'r');
}

#[test]
fn queen_moves_straight_and_diagonally() {
    let mut board = GameBoard::new();
    assert_eq!(mv(&mut board, (1, 3), (3, 3)), Ok(()));
    assert_eq!(mv(&mut board, (0, 3), (2, 3)), Ok(()));
    assert_eq!(mv(&mut board, (2, 3), (4, 5)), Ok(()));
    assert_eq!(mv(&mut board, (4, 5), (5, 7)), Err(GameError::IllegalMove));
    assert_eq!(mv(&mut board, (4, 5), (4, 0)), Ok(()));
    assert_eq!(glyph_at(&board, 4, 0), 'q');
}

#[test]
fn king_moves_one_square() {
    let mut board = GameBoard::new();
    assert_eq!(mv(&mut board, (1, 4), (2, 4)), Ok(()));
    assert_eq!(mv(&mut board, (0, 4), (1, 4)), Ok(()));
    assert_eq!(mv(&mut board, (1, 4), (3, 4)), Err(GameError::IllegalMove));
    assert_eq!(mv(&mut board, (1, 4), (2, 4)), Err(GameError::DestinationOccupied));
    assert_eq!(mv(&mut board, (1, 4), (2, 5)), Ok(()));
    assert_eq!(glyph_at(&board, 2, 5), 'K');
    assert_eq!(mv(&mut board, (2, 5), (1, 4)), Ok(()));
    assert_eq!(glyph_at(&board, 1, 4), 'K');
}

#[test]
fn move_onto_own_piece_fails() {
    let mut board = GameBoard::new();
    assert_eq!(mv(&mut board, (0, 0), (1, 0)), Err(GameError::DestinationOccupied));
    assert_eq!(mv(&mut board, (0, 1), (1, 3)), Err(GameError::DestinationOccupied));
    assert_eq!(board.render(), START);
}

#[test]
fn move_onto_opposing_piece_fails() {
    let mut board = GameBoard::new();
    assert_eq!(mv(&mut board, (1, 0), (3, 0)), Ok(()));
    assert_eq!(mv(&mut board, (6, 0), (4, 0)), Ok(()));
    let before = board.render();
    assert_eq!(mv(&mut board, (3, 0), (4, 0)), Err(GameError::DestinationOccupied));
    assert_eq!(board.render(), before);
    assert_eq!(glyph_at(&board, 4, 0), 'p');
}

#[test]
fn empty_source_fails() {
    let mut board = GameBoard::new();
    assert_eq!(mv(&mut board, (3, 3), (4, 3)), Err(GameError::EmptySource));
    assert_eq!(board.render(), START);
}

#[test]
fn failed_moves_leave_board_unchanged() {
    let mut board = GameBoard::new();
    assert_eq!(mv(&mut board, (0, 6), (2, 7)), Ok(()));
    let before = board.render();
    assert_eq!(mv(&mut board, (2, 7), (2, 6)), Err(GameError::IllegalMove));
    assert_eq!(mv(&mut board, (5, 5), (4, 5)), Err(GameError::EmptySource));
    assert_eq!(mv(&mut board, (0, 7), (0, 5)), Err(GameError::DestinationOccupied));
    assert_eq!(mv(&mut board, (0, 7), (0, 6)), Ok(()));
    let after = board.render();
    assert_ne!(after, before);
    assert_eq!(mv(&mut board, (0, 6), (0, 0)), Err(GameError::DestinationOccupied));
    assert_eq!(mv(&mut board, (0, 6), (0, 4)), Err(GameError::DestinationOccupied));
    assert_eq!(board.render(), after);
}

#[test]
fn piece_accessors() {
    let p = GamePiece::new(PieceKind::Bishop, Side::Black);
    assert_eq!(p.kind(), PieceKind::Bishop);
    assert_eq!(p.side(), Side::Black);
}

#[test]
fn promote_to_allowed_kinds() {
    for target in [PieceKind::Knight, PieceKind::Bishop, PieceKind::Rook, PieceKind::Queen] {
        let mut p = GamePiece::new(PieceKind::Pawn, Side::White);
        assert_eq!(p.promote(target), Ok(()));
        assert_eq!(p.kind(), target);
        assert_eq!(p.side(), Side::White);
    }
}

#[test]
fn promote_to_pawn_or_king_fails() {
    let mut p = GamePiece::new(PieceKind::Pawn, Side::Black);
    assert_eq!(p.promote(PieceKind::King), Err(GameError::IllegalPromotion));
    assert_eq!(p.promote(PieceKind::Pawn), Err(GameError::IllegalPromotion));
    assert_eq!(p.kind(), PieceKind::Pawn);
    assert_eq!(p.side(), Side::Black);
}
