//! A game in play: the board, the side to move, and the move log with
//! undo and redo.

use vstd::prelude::*;
use crate::board::{occupant, Board};
use crate::error::MoveError;
use crate::model::{
    lemma_after_move_wf, lemma_after_redo_wf, lemma_after_undo_wf, lemma_initial_wf, GameView,
};
use crate::move_record::MoveRecord;
use crate::piece::{Color, PieceType};
use crate::position::Position;
use crate::rules::{
    bishop_rule, distance, king_rule, knight_rule, legal_move, on_a_diagonal, on_a_line,
    path_clear, pawn_rule, queen_rule, rook_rule, span, square_along, step_toward,
};

verus! {

/// A game of chess between two sides.
#[derive(Debug, Clone)]
pub struct Game {
    board: Board,
    current_player: Color,
    move_history: Vec<MoveRecord>,
    history_index: usize,
}

impl View for Game {
    type V = GameView;

    closed spec fn view(&self) -> GameView {
        GameView {
            board: self.board@,
            current_player: self.current_player,
            history: self.move_history@,
            cursor: self.history_index as nat,
        }
    }
}

impl Game {
    /// A game in the initial position, White to move, with an empty log.
    pub fn new() -> (game: Game)
        ensures
            game@ == GameView::initial(),
            game@.wf(),
    {
        proof {
            lemma_initial_wf();
        }
        Game {
            board: Board::new(),
            current_player: Color::White,
            move_history: Vec::new(),
            history_index: 0,
        }
    }

    /// The board as it stands.
    pub fn board(&self) -> (board: &Board)
        ensures
            board@ == self@.board,
    {
        &self.board
    }

    /// The side to move.
    pub fn current_player(&self) -> (side: Color)
        ensures
            side == self@.current_player,
    {
        self.current_player
    }

    /// Plays the move from `from` to `to` for the side to move. The move is
    /// refused, and nothing changes, when `from` is empty, when the piece
    /// on it belongs to the other side, or when the piece may not move to
    /// `to`. An accepted move captures what stood on `to`, is appended to
    /// the log in place of any moves that had been taken back, and passes
    /// the turn.
    pub fn make_move(&mut self, from: Position, to: Position) -> (result: Result<(), MoveError>)
        requires
            old(self)@.wf(),
        ensures
            final(self)@.wf(),
            result == old(self)@.outcome(from, to),
            final(self)@ == old(self)@.attempt_move(from, to),
    {
        let piece = match self.board.get_piece(from) {
            Some(piece) => piece,
            None => {
                return Err(MoveError::NoPieceAtSource);
            },
        };
        if piece.color != self.current_player {
            return Err(MoveError::WrongSideToMove);
        }
        if !self.is_valid_move(from, to) {
            return Err(MoveError::IllegalMove);
        }
        proof {
            self.board.lemma_view_covers_board();
            lemma_after_move_wf(self@, from, to);
        }
        let captured_piece = self.board.move_piece(from, to);
        let move_record = MoveRecord::new(from, to, piece, captured_piece);
        self.move_history.truncate(self.history_index);
        self.move_history.push(move_record);
        self.history_index = self.move_history.len();
        self.current_player = self.current_player.opposite();
        assert(self@.history =~= old(self)@.after_move(from, to).history);
        Ok(())
    }

    /// Takes back the last played move and returns `true`, or returns
    /// `false` and changes nothing when no move stands played.
    pub fn undo_move(&mut self) -> (undone: bool)
        requires
            old(self)@.wf(),
        ensures
            final(self)@.wf(),
            undone == old(self)@.can_undo(),
            final(self)@ == old(self)@.undo(),
    {
        if self.history_index == 0 {
            return false;
        }
        proof {
            lemma_after_undo_wf(self@);
        }
        self.history_index -= 1;
        let from = self.move_history[self.history_index].from;
        let to = self.move_history[self.history_index].to;
        let moved_piece = self.move_history[self.history_index].moved_piece;
        let captured_piece = self.move_history[self.history_index].captured_piece;
        self.board.set_piece(from, Some(moved_piece));
        self.board.set_piece(to, captured_piece);
        self.current_player = self.current_player.opposite();
        true
    }

    /// Plays again the move that was last taken back and returns `true`,
    /// or returns `false` and changes nothing when there is none.
    pub fn redo_move(&mut self) -> (redone: bool)
        requires
            old(self)@.wf(),
        ensures
            final(self)@.wf(),
            redone == old(self)@.can_redo(),
            final(self)@ == old(self)@.redo(),
    {
        if self.history_index >= self.move_history.len() {
            return false;
        }
        proof {
            lemma_after_redo_wf(self@);
        }
        let from = self.move_history[self.history_index].from;
        let to = self.move_history[self.history_index].to;
        self.board.move_piece(from, to);
        self.history_index += 1;
        self.current_player = self.current_player.opposite();
        true
    }

    /// Starts over: the initial position, White to move, an empty log.
    pub fn restart(&mut self)
        ensures
            final(self)@ == GameView::initial(),
            final(self)@.wf(),
    {
        proof {
            lemma_initial_wf();
        }
        self.board = Board::new();
        self.current_player = Color::White;
        self.move_history.clear();
        self.history_index = 0;
    }

    /// Whether the piece on `from` may move to `to` on the board as it
    /// stands, whichever side is to move.
    pub fn is_valid_move(&self, from: Position, to: Position) -> (valid: bool)
        ensures
            valid == legal_move(self@.board, from, to),
    {
        if from == to {
            return false;
        }
        if !to.is_valid() {
            return false;
        }
        let piece = match self.board.get_piece(from) {
            Some(piece) => piece,
            None => {
                return false;
            },
        };
        if let Some(target_piece) = self.board.get_piece(to) {
            if target_piece.color == piece.color {
                return false;
            }
        }
        proof {
            self.board.lemma_view_covers_board();
        }
        match piece.piece_type {
            PieceType::Pawn => self.is_valid_pawn_move(from, to, piece.color),
            PieceType::Rook => self.is_valid_rook_move(from, to),
            PieceType::Bishop => self.is_valid_bishop_move(from, to),
            PieceType::Queen => self.is_valid_queen_move(from, to),
            PieceType::King => self.is_valid_king_move(from, to),
            PieceType::Knight => self.is_valid_knight_move(from, to),
        }
    }

    /// Whether a pawn of `color` may move from `from` to `to` on the board
    /// as it stands: one square straight ahead or two from its starting
    /// row, onto an empty square, or one square diagonally ahead onto a
    /// piece of the other side. What stands on `from` is not looked at.
    pub fn is_valid_pawn_move(&self, from: Position, to: Position, color: Color) -> (valid: bool)
        ensures
            valid == pawn_rule(self@.board, from, to, color),
    {
        let ahead = match color {
            Color::White => from.row > 0 && to.row == from.row - 1,
            Color::Black => to.row > 0 && from.row == to.row - 1,
        };
        if to.col == from.col {
            if ahead && self.board.get_piece(to).is_none() {
                return true;
            }
            let two_ahead_from_start = match color {
                Color::White => from.row == 6 && to.row == 4,
                Color::Black => from.row == 1 && to.row == 3,
            };
            if two_ahead_from_start && self.board.get_piece(to).is_none() {
                return true;
            }
        } else if distance(from.col, to.col) == 1 && ahead {
            return match self.board.get_piece(to) {
                Some(target_piece) => target_piece.color != color,
                None => false,
            };
        }
        false
    }

    /// Whether the two squares share a row or a column and every square
    /// strictly between them is empty. What stands on the two squares
    /// themselves is not looked at.
    pub fn is_valid_rook_move(&self, from: Position, to: Position) -> (valid: bool)
        ensures
            valid == rook_rule(self@.board, from, to),
    {
        if from.row != to.row && from.col != to.col {
            return false;
        }
        self.is_path_clear(from, to)
    }

    /// Whether the two squares differ, share a diagonal, and every square
    /// strictly between them is empty. What stands on the two squares
    /// themselves is not looked at.
    pub fn is_valid_bishop_move(&self, from: Position, to: Position) -> (valid: bool)
        ensures
            valid == bishop_rule(self@.board, from, to),
    {
        if from == to {
            return false;
        }
        if distance(from.row, to.row) != distance(from.col, to.col) {
            return false;
        }
        self.is_path_clear(from, to)
    }

    /// Whether the move is one that a rook or a bishop could make.
    pub fn is_valid_queen_move(&self, from: Position, to: Position) -> (valid: bool)
        ensures
            valid == queen_rule(self@.board, from, to),
    {
        self.is_valid_rook_move(from, to) || self.is_valid_bishop_move(from, to)
    }

    /// Whether the two squares are at most one row and one column apart.
    /// The board is not looked at.
    pub fn is_valid_king_move(&self, from: Position, to: Position) -> (valid: bool)
        ensures
            valid == king_rule(from, to),
    {
        distance(from.row, to.row) <= 1 && distance(from.col, to.col) <= 1
    }

    /// Whether the two squares are two apart along one axis and one apart
    /// along the other. The board is not looked at.
    pub fn is_valid_knight_move(&self, from: Position, to: Position) -> (valid: bool)
        ensures
            valid == knight_rule(from, to),
    {
        let row_diff = distance(from.row, to.row);
        let col_diff = distance(from.col, to.col);
        (row_diff == 2 && col_diff == 1) || (row_diff == 1 && col_diff == 2)
    }

    /// Walks from the square after `from` to the square before `to`, one
    /// step at a time, and reports whether all of them are empty. The two
    /// squares must share a line or a diagonal: only then is there a path
    /// between them.
    pub fn is_path_clear(&self, from: Position, to: Position) -> (clear: bool)
        requires
            on_a_line(from, to) || on_a_diagonal(from, to),
        ensures
            clear == path_clear(self@.board, from, to),
    {
        let mut current_row = step_toward(from.row, to.row);
        let mut current_col = step_toward(from.col, to.col);
        let ghost mut steps: int = 1;
        while current_row != to.row || current_col != to.col
            invariant
                on_a_line(from, to) || on_a_diagonal(from, to),
                1 <= steps,
                steps <= span(from, to) || span(from, to) == 0,
                current_row == square_along(from, to, steps).row,
                current_col == square_along(from, to, steps).col,
                forall|k: int|
                    0 < k < steps ==> occupant(
                        self@.board,
                        #[trigger] square_along(from, to, k),
                    ) is None,
            decreases span(from, to) - steps,
        {
            let pos = Position { row: current_row, col: current_col };
            if self.board.get_piece(pos).is_some() {
                return false;
            }
            current_row = step_toward(current_row, to.row);
            current_col = step_toward(current_col, to.col);
            proof {
                steps = steps + 1;
            }
        }
        true
    }
}

} // verus!
