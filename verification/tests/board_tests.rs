use rusty_chess::{Board, Color, Piece, PieceType, Position};

fn at(row: usize, col: usize) -> Position {
    Position { row, col }
}

fn back_rank() -> [PieceType; 8] {
    [
        PieceType::Rook,
        PieceType::Knight,
        PieceType::Bishop,
        PieceType::Queen,
        PieceType::King,
        PieceType::Bishop,
        PieceType::Knight,
        PieceType::Rook,
    ]
}

#[test]
fn new_board_has_the_initial_layout() {
    let board = Board::new();
    let kinds = back_rank();
    for col in 0..8usize {
        assert_eq!(board.get_piece(at(0, col)), Some(Piece::new(kinds[col], Color::Black)));
        assert_eq!(board.get_piece(at(1, col)), Some(Piece::new(PieceType::Pawn, Color::Black)));
        for row in 2..6usize {
            assert_eq!(board.get_piece(at(row, col)), None);
        }
        assert_eq!(board.get_piece(at(6, col)), Some(Piece::new(PieceType::Pawn, Color::White)));
        assert_eq!(board.get_piece(at(7, col)), Some(Piece::new(kinds[col], Color::White)));
    }
}

#[test]
fn new_board_has_thirty_two_pieces() {
    let board = Board::new();
    let state = board.get_state();
    let mut white = 0;
    let mut black = 0;
    for row in 0..8usize {
        for col in 0..8usize {
            match state[row][col] {
                Some(piece) if piece.color == Color::White => white += 1,
                Some(_) => black += 1,
                None => {}
            }
        }
    }
    assert_eq!(white, 16);
    assert_eq!(black, 16);
}

#[test]
fn empty_board_has_no_piece() {
    let board = Board::empty();
    for row in 0..8usize {
        for col in 0..8usize {
            assert_eq!(board.get_piece(at(row, col)), None);
            assert_eq!(board.get_state()[row][col], None);
        }
    }
}

#[test]
fn get_state_agrees_with_get_piece() {
    let mut board = Board::new();
    board.move_piece(at(6, 4), at(4, 4));
    for row in 0..8usize {
        for col in 0..8usize {
            assert_eq!(board.get_state()[row][col], board.get_piece(at(row, col)));
        }
    }
}

#[test]
fn get_piece_off_the_board_is_none() {
    let board = Board::new();
    assert_eq!(board.get_piece(at(8, 0)), None);
    assert_eq!(board.get_piece(at(0, 8)), None);
    assert_eq!(board.get_piece(at(usize::MAX, usize::MAX)), None);
}

#[test]
fn set_piece_writes_one_square() {
    let mut board = Board::empty();
    let queen = Piece::new(PieceType::Queen, Color::White);
    assert!(board.set_piece(at(3, 5), Some(queen)));
    for row in 0..8usize {
        for col in 0..8usize {
            let expected = if row == 3 && col == 5 { Some(queen) } else { None };
            assert_eq!(board.get_piece(at(row, col)), expected);
        }
    }
    assert!(board.set_piece(at(3, 5), None));
    assert_eq!(board.get_piece(at(3, 5)), None);
}

#[test]
fn set_piece_off_the_board_changes_nothing() {
    let mut board = Board::new();
    let before = *board.get_state();
    let queen = Piece::new(PieceType::Queen, Color::White);
    assert!(!board.set_piece(at(8, 0), Some(queen)));
    assert!(!board.set_piece(at(0, 8), None));
    assert_eq!(*board.get_state(), before);
}

#[test]
fn move_piece_relocates_without_asking() {
    let mut board = Board::new();
    // A rook over its own pawn onto an empty square: the board does not judge.
    assert_eq!(board.move_piece(at(7, 0), at(4, 0)), None);
    assert_eq!(board.get_piece(at(7, 0)), None);
    assert_eq!(board.get_piece(at(4, 0)), Some(Piece::new(PieceType::Rook, Color::White)));
    assert_eq!(board.get_piece(at(6, 0)), Some(Piece::new(PieceType::Pawn, Color::White)));
}

#[test]
fn move_piece_returns_what_it_captured() {
    let mut board = Board::new();
    let captured = board.move_piece(at(7, 3), at(0, 3));
    assert_eq!(captured, Some(Piece::new(PieceType::Queen, Color::Black)));
    assert_eq!(board.get_piece(at(0, 3)), Some(Piece::new(PieceType::Queen, Color::White)));
    assert_eq!(board.get_piece(at(7, 3)), None);
    // Its own side too.
    let captured = board.move_piece(at(7, 4), at(6, 4));
    assert_eq!(captured, Some(Piece::new(PieceType::Pawn, Color::White)));
    assert_eq!(board.get_piece(at(6, 4)), Some(Piece::new(PieceType::King, Color::White)));
}

#[test]
fn move_piece_from_an_empty_square_changes_nothing() {
    let mut board = Board::new();
    let before = *board.get_state();
    assert_eq!(board.move_piece(at(4, 4), at(0, 0)), None);
    assert_eq!(*board.get_state(), before);
}

#[test]
fn move_piece_off_the_board_changes_nothing() {
    let mut board = Board::new();
    let before = *board.get_state();
    assert_eq!(board.move_piece(at(7, 0), at(8, 0)), None);
    assert_eq!(board.move_piece(at(8, 0), at(7, 0)), None);
    assert_eq!(board.move_piece(at(0, 8), at(8, 0)), None);
    assert_eq!(*board.get_state(), before);
}

#[test]
fn move_piece_onto_its_own_square_keeps_the_piece() {
    let mut board = Board::new();
    let before = *board.get_state();
    let king = Piece::new(PieceType::King, Color::White);
    assert_eq!(board.move_piece(at(7, 4), at(7, 4)), Some(king));
    assert_eq!(*board.get_state(), before);
}
