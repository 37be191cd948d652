use rusty_chess::{BoardState, Color, Game, MoveError, Piece, PieceType, Position};

fn sq(name: &str) -> Position {
    Position::from_chess_notation(name).expect("a square name")
}

fn snapshot(game: &Game) -> BoardState {
    *game.board().get_state()
}

fn play_all(game: &mut Game, moves: &[(&str, &str)]) {
    for (from, to) in moves {
        assert_eq!(game.make_move(sq(from), sq(to)), Ok(()), "{} to {}", from, to);
    }
}

fn piece_on(game: &Game, name: &str) -> Option<Piece> {
    game.board().get_piece(sq(name))
}

#[test]
fn new_game_starts_from_the_initial_position() {
    let game = Game::new();
    assert_eq!(game.current_player(), Color::White);
    assert_eq!(snapshot(&game), *rusty_chess::Board::new().get_state());
    let mut pieces = 0;
    for row in snapshot(&game).iter() {
        for square in row.iter() {
            if square.is_some() {
                pieces += 1;
            }
        }
    }
    assert_eq!(pieces, 32);
    assert_eq!(piece_on(&game, "e1"), Some(Piece::new(PieceType::King, Color::White)));
    assert_eq!(piece_on(&game, "d8"), Some(Piece::new(PieceType::Queen, Color::Black)));
    assert_eq!(piece_on(&game, "a1"), Some(Piece::new(PieceType::Rook, Color::White)));
    assert_eq!(piece_on(&game, "g8"), Some(Piece::new(PieceType::Knight, Color::Black)));
    assert_eq!(piece_on(&game, "c1"), Some(Piece::new(PieceType::Bishop, Color::White)));
    assert_eq!(piece_on(&game, "e4"), None);
}

#[test]
fn opening_double_step_is_accepted() {
    let mut game = Game::new();
    assert_eq!(game.make_move(sq("e2"), sq("e4")), Ok(()));
    assert_eq!(piece_on(&game, "e2"), None);
    assert_eq!(piece_on(&game, "e4"), Some(Piece::new(PieceType::Pawn, Color::White)));
    assert_eq!(game.current_player(), Color::Black);
}

#[test]
fn sides_alternate() {
    let mut game = Game::new();
    assert_eq!(game.current_player(), Color::White);
    play_all(&mut game, &[("e2", "e4")]);
    assert_eq!(game.current_player(), Color::Black);
    play_all(&mut game, &[("e7", "e5")]);
    assert_eq!(game.current_player(), Color::White);
    assert!(game.undo_move());
    assert_eq!(game.current_player(), Color::Black);
    assert!(game.redo_move());
    assert_eq!(game.current_player(), Color::White);
}

#[test]
fn empty_source_is_refused() {
    let mut game = Game::new();
    let before = snapshot(&game);
    assert_eq!(game.make_move(sq("e4"), sq("e5")), Err(MoveError::NoPieceAtSource));
    assert_eq!(
        game.make_move(Position { row: 8, col: 0 }, sq("a1")),
        Err(MoveError::NoPieceAtSource)
    );
    assert_eq!(snapshot(&game), before);
    assert_eq!(game.current_player(), Color::White);
    assert!(!game.undo_move());
}

#[test]
fn the_other_sides_piece_is_refused() {
    let mut game = Game::new();
    let before = snapshot(&game);
    assert_eq!(game.make_move(sq("e7"), sq("e5")), Err(MoveError::WrongSideToMove));
    assert_eq!(snapshot(&game), before);
    play_all(&mut game, &[("e2", "e4")]);
    assert_eq!(game.make_move(sq("d2"), sq("d4")), Err(MoveError::WrongSideToMove));
    assert_eq!(game.current_player(), Color::Black);
}

#[test]
fn illegal_geometry_is_refused() {
    let mut game = Game::new();
    let before = snapshot(&game);
    // A pawn three squares ahead, sideways, backward, and on the spot.
    assert_eq!(game.make_move(sq("e2"), sq("e5")), Err(MoveError::IllegalMove));
    assert_eq!(game.make_move(sq("e2"), sq("d3")), Err(MoveError::IllegalMove));
    assert_eq!(game.make_move(sq("e2"), sq("e2")), Err(MoveError::IllegalMove));
    // A knight like a bishop.
    assert_eq!(game.make_move(sq("b1"), sq("d3")), Err(MoveError::IllegalMove));
    assert_eq!(snapshot(&game), before);
    assert_eq!(game.current_player(), Color::White);
    assert!(!game.undo_move());
    assert!(!game.redo_move());
}

#[test]
fn destination_off_the_board_is_refused() {
    let mut game = Game::new();
    let before = snapshot(&game);
    let off_right = Position { row: 7, col: 8 };
    let off_below = Position { row: 8, col: 4 };
    let off_knight = Position { row: 9, col: 2 };
    assert_eq!(game.make_move(sq("h1"), off_right), Err(MoveError::IllegalMove));
    assert_eq!(game.make_move(sq("e1"), off_below), Err(MoveError::IllegalMove));
    assert_eq!(game.make_move(sq("b1"), off_knight), Err(MoveError::IllegalMove));
    assert!(!game.is_valid_move(sq("e1"), off_below));
    assert_eq!(snapshot(&game), before);
    assert_eq!(game.current_player(), Color::White);
    assert!(!game.undo_move());
}

#[test]
fn is_valid_move_does_not_ask_whose_turn_it_is() {
    let game = Game::new();
    assert!(game.is_valid_move(sq("e2"), sq("e4")));
    assert!(game.is_valid_move(sq("e7"), sq("e5")));
    assert!(game.is_valid_move(sq("g8"), sq("f6")));
    assert!(!game.is_valid_move(sq("e4"), sq("e5")));
    assert!(!game.is_valid_move(sq("e2"), sq("e2")));
    assert!(!game.is_valid_move(sq("a1"), sq("a2")));
}

#[test]
fn undo_on_a_fresh_game_changes_nothing() {
    let mut game = Game::new();
    let before = snapshot(&game);
    assert!(!game.undo_move());
    assert_eq!(snapshot(&game), before);
    assert_eq!(game.current_player(), Color::White);
    assert!(!game.redo_move());
    assert_eq!(game.make_move(sq("e2"), sq("e4")), Ok(()));
}

#[test]
fn redo_with_nothing_taken_back_changes_nothing() {
    let mut game = Game::new();
    assert!(!game.redo_move());
    play_all(&mut game, &[("e2", "e4"), ("e7", "e5")]);
    let before = snapshot(&game);
    assert!(!game.redo_move());
    assert_eq!(snapshot(&game), before);
    assert_eq!(game.current_player(), Color::White);
    assert!(game.undo_move());
    assert!(game.undo_move());
    assert!(!game.undo_move());
}

#[test]
fn undo_takes_every_move_back() {
    let mut game = Game::new();
    play_all(&mut game, &[("e2", "e4"), ("d7", "d5")]);
    let start = snapshot(&game);
    let side = game.current_player();
    let moves = [
        ("e4", "d5"),
        ("d8", "d5"),
        ("b1", "c3"),
        ("d5", "e5"),
        ("f1", "e2"),
        ("e5", "e2"),
        ("g1", "e2"),
    ];
    let mut boards = vec![start];
    for (from, to) in moves.iter() {
        assert_eq!(game.make_move(sq(from), sq(to)), Ok(()));
        boards.push(snapshot(&game));
    }
    for played in (0..moves.len()).rev() {
        assert!(game.undo_move());
        assert_eq!(snapshot(&game), boards[played]);
    }
    assert_eq!(snapshot(&game), start);
    assert_eq!(game.current_player(), side);
    // The cursor is back where it was: two moves stand played.
    assert!(game.undo_move());
    assert!(game.undo_move());
    assert!(!game.undo_move());
    assert_eq!(snapshot(&game), *rusty_chess::Board::new().get_state());
    assert_eq!(game.current_player(), Color::White);
}

#[test]
fn undo_puts_a_captured_piece_back() {
    let mut game = Game::new();
    play_all(&mut game, &[("e2", "e4"), ("d7", "d5"), ("e4", "d5")]);
    assert_eq!(piece_on(&game, "d5"), Some(Piece::new(PieceType::Pawn, Color::White)));
    assert_eq!(piece_on(&game, "e4"), None);
    assert!(game.undo_move());
    assert_eq!(piece_on(&game, "d5"), Some(Piece::new(PieceType::Pawn, Color::Black)));
    assert_eq!(piece_on(&game, "e4"), Some(Piece::new(PieceType::Pawn, Color::White)));
    assert_eq!(game.current_player(), Color::White);
}

#[test]
fn redo_plays_taken_back_moves_again() {
    let mut game = Game::new();
    let moves = [("e2", "e4"), ("d7", "d5"), ("e4", "d5"), ("d8", "d5")];
    let mut boards = vec![snapshot(&game)];
    for (from, to) in moves.iter() {
        assert_eq!(game.make_move(sq(from), sq(to)), Ok(()));
        boards.push(snapshot(&game));
    }
    for _ in 0..moves.len() {
        assert!(game.undo_move());
    }
    assert_eq!(snapshot(&game), boards[0]);
    for played in 1..=moves.len() {
        assert!(game.redo_move());
        assert_eq!(snapshot(&game), boards[played]);
    }
    assert!(!game.redo_move());
    assert_eq!(game.current_player(), Color::White);
}

#[test]
fn a_fresh_move_discards_what_was_taken_back() {
    let mut game = Game::new();
    play_all(&mut game, &[("e2", "e4"), ("e7", "e5")]);
    assert!(game.undo_move());
    play_all(&mut game, &[("d7", "d5")]);
    let branched = snapshot(&game);
    assert!(!game.redo_move());
    assert_eq!(snapshot(&game), branched);
    assert_eq!(piece_on(&game, "e5"), None);
    // Still refused after more moves and after a refused move.
    play_all(&mut game, &[("e4", "d5")]);
    assert!(!game.redo_move());
    assert_eq!(game.make_move(sq("a1"), sq("a5")), Err(MoveError::WrongSideToMove));
    assert!(!game.redo_move());
    // Until a move is taken back again.
    assert!(game.undo_move());
    assert_eq!(snapshot(&game), branched);
    assert!(game.redo_move());
    assert!(!game.redo_move());
}

#[test]
fn playing_the_same_move_again_by_hand_also_ends_the_log() {
    let mut game = Game::new();
    play_all(&mut game, &[("e2", "e4"), ("e7", "e5"), ("g1", "f3")]);
    assert!(game.undo_move());
    assert!(game.undo_move());
    play_all(&mut game, &[("e7", "e5")]);
    assert!(!game.redo_move());
}

#[test]
fn restart_resets_everything() {
    let mut game = Game::new();
    play_all(&mut game, &[("e2", "e4"), ("d7", "d5"), ("e4", "d5")]);
    assert!(game.undo_move());
    game.restart();
    assert_eq!(snapshot(&game), *rusty_chess::Board::new().get_state());
    assert_eq!(game.current_player(), Color::White);
    assert!(!game.undo_move());
    assert!(!game.redo_move());
    assert_eq!(game.make_move(sq("e2"), sq("e4")), Ok(()));
}
