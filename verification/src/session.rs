//! A game driven by pointer and key events: which square is selected, which
//! piece is being dragged, and what each event does to the game.
//!
//! The session knows nothing of pixels. Whoever draws the board maps the
//! pointer to a square, hands the events over one by one, and shows the
//! feedback.

use vstd::prelude::*;
use crate::board::occupant;
use crate::error::MoveError;
use crate::game::Game;
use crate::model::GameView;
use crate::position::Position;

verus! {

/// Something the player did.
#[derive(Debug, Clone, Copy, PartialEq, Eq, Structural)]
pub enum InputEvent {
    /// The pointer button went down on the given square.
    Press(Position),
    /// The pointer button went up, on the given square or off the board.
    Release(Option<Position>),
    /// The player asked to take the last move back.
    Undo,
    /// The player asked to play again the move last taken back.
    Redo,
    /// The player asked for a new game.
    Restart,
}

/// What came of an event.
#[derive(Debug, Clone, Copy, PartialEq, Eq, Structural)]
pub enum Feedback {
    /// The event asked for nothing in the state it met.
    Idle,
    /// A piece of the side to move was picked up.
    PickedUp,
    /// A move was played.
    Moved,
    /// A move was attempted and refused.
    Refused(MoveError),
    /// The last move was taken back.
    Undone,
    /// There was no move to take back.
    NothingToUndo,
    /// A move was played again.
    Redone,
    /// There was no move to play again.
    NothingToRedo,
    /// A new game was started.
    Restarted,
}

/// The feedback for an attempted move.
pub open spec fn verdict(outcome: Result<(), MoveError>) -> Feedback {
    match outcome {
        Ok(_) => Feedback::Moved,
        Err(reason) => Feedback::Refused(reason),
    }
}

/// The state of a session.
pub struct SessionView {
    /// The game being played.
    pub game: GameView,
    /// The square that is highlighted, if any.
    pub selected_square: Option<Position>,
    /// The square whose piece follows the pointer, if any.
    pub dragging_piece: Option<Position>,
}

impl SessionView {
    /// The state at the start: a fresh game and nothing selected.
    pub open spec fn initial() -> SessionView {
        SessionView { game: GameView::initial(), selected_square: None, dragging_piece: None }
    }

    /// The invariant of a session: the game is well formed, and the piece
    /// being dragged is the one on the selected square.
    pub open spec fn wf(self) -> bool {
        self.game.wf() && self.selected_square == self.dragging_piece
    }

    /// The same game with nothing selected.
    pub open spec fn released(self) -> SessionView {
        SessionView { game: self.game, selected_square: None, dragging_piece: None }
    }

    /// The state after attempting the move from `from` to `to`: whatever
    /// comes of it, nothing stays selected.
    pub open spec fn after_attempt(self, from: Position, to: Position) -> SessionView {
        SessionView {
            game: self.game.attempt_move(from, to),
            selected_square: None,
            dragging_piece: None,
        }
    }

    /// The state after a press on `pos`. A press on a piece of the side to
    /// move picks it up. A press on a piece of the other side does nothing.
    /// A press on an empty square attempts a move there from the selected
    /// square, if there is one.
    pub open spec fn after_press(self, pos: Position) -> SessionView {
        match occupant(self.game.board, pos) {
            Some(piece) => if piece.color == self.game.current_player {
                SessionView {
                    game: self.game,
                    selected_square: Some(pos),
                    dragging_piece: Some(pos),
                }
            } else {
                self
            },
            None => match self.selected_square {
                Some(from) => self.after_attempt(from, pos),
                None => self,
            },
        }
    }

    /// The feedback for a press on `pos`.
    pub open spec fn press_feedback(self, pos: Position) -> Feedback {
        match occupant(self.game.board, pos) {
            Some(piece) => if piece.color == self.game.current_player {
                Feedback::PickedUp
            } else {
                Feedback::Idle
            },
            None => match self.selected_square {
                Some(from) => verdict(self.game.outcome(from, pos)),
                None => Feedback::Idle,
            },
        }
    }

    /// The state after a release on `target`. With a piece being dragged, a
    /// release on a square attempts the move there and a release off the
    /// board drops the piece where it was; either way nothing stays
    /// selected. With no piece being dragged nothing happens.
    pub open spec fn after_release(self, target: Option<Position>) -> SessionView {
        match self.dragging_piece {
            Some(from) => match target {
                Some(to) => self.after_attempt(from, to),
                None => self.released(),
            },
            None => self,
        }
    }

    /// The feedback for a release on `target`.
    pub open spec fn release_feedback(self, target: Option<Position>) -> Feedback {
        match (self.dragging_piece, target) {
            (Some(from), Some(to)) => verdict(self.game.outcome(from, to)),
            _ => Feedback::Idle,
        }
    }

    /// The state after `event`.
    pub open spec fn after(self, event: InputEvent) -> SessionView {
        match event {
            InputEvent::Press(pos) => self.after_press(pos),
            InputEvent::Release(target) => self.after_release(target),
            InputEvent::Undo => SessionView { game: self.game.undo(), ..self },
            InputEvent::Redo => SessionView { game: self.game.redo(), ..self },
            InputEvent::Restart => SessionView::initial(),
        }
    }

    /// The feedback for `event`.
    pub open spec fn feedback(self, event: InputEvent) -> Feedback {
        match event {
            InputEvent::Press(pos) => self.press_feedback(pos),
            InputEvent::Release(target) => self.release_feedback(target),
            InputEvent::Undo => if self.game.can_undo() {
                Feedback::Undone
            } else {
                Feedback::NothingToUndo
            },
            InputEvent::Redo => if self.game.can_redo() {
                Feedback::Redone
            } else {
                Feedback::NothingToRedo
            },
            InputEvent::Restart => Feedback::Restarted,
        }
    }
}

/// A game together with what the player has selected.
#[derive(Debug, Clone)]
pub struct Session {
    game: Game,
    selected_square: Option<Position>,
    dragging_piece: Option<Position>,
}

impl View for Session {
    type V = SessionView;

    closed spec fn view(&self) -> SessionView {
        SessionView {
            game: self.game@,
            selected_square: self.selected_square,
            dragging_piece: self.dragging_piece,
        }
    }
}

impl Session {
    /// A session on a fresh game, with nothing selected.
    pub fn new() -> (session: Session)
        ensures
            session@ == SessionView::initial(),
            session@.wf(),
    {
        Session { game: Game::new(), selected_square: None, dragging_piece: None }
    }

    /// The game being played.
    pub fn game(&self) -> (game: &Game)
        ensures
            game@ == self@.game,
    {
        &self.game
    }

    /// The square that is highlighted, if any.
    pub fn selected_square(&self) -> (selected: Option<Position>)
        ensures
            selected == self@.selected_square,
    {
        self.selected_square
    }

    /// The square whose piece follows the pointer, if any.
    pub fn dragging_piece(&self) -> (dragging: Option<Position>)
        ensures
            dragging == self@.dragging_piece,
    {
        self.dragging_piece
    }

    /// Takes one event and says what came of it.
    pub fn handle(&mut self, event: InputEvent) -> (feedback: Feedback)
        requires
            old(self)@.wf(),
        ensures
            final(self)@.wf(),
            final(self)@ == old(self)@.after(event),
            feedback == old(self)@.feedback(event),
    {
        match event {
            InputEvent::Press(pos) => self.press(pos),
            InputEvent::Release(target) => self.release(target),
            InputEvent::Undo => {
                if self.game.undo_move() {
                    Feedback::Undone
                } else {
                    Feedback::NothingToUndo
                }
            },
            InputEvent::Redo => {
                if self.game.redo_move() {
                    Feedback::Redone
                } else {
                    Feedback::NothingToRedo
                }
            },
            InputEvent::Restart => {
                self.game.restart();
                self.selected_square = None;
                self.dragging_piece = None;
                Feedback::Restarted
            },
        }
    }

    fn press(&mut self, pos: Position) -> (feedback: Feedback)
        requires
            old(self)@.wf(),
        ensures
            final(self)@.wf(),
            final(self)@ == old(self)@.after_press(pos),
            feedback == old(self)@.press_feedback(pos),
    {
        match self.game.board().get_piece(pos) {
            Some(piece) => {
                if piece.color == self.game.current_player() {
                    self.dragging_piece = Some(pos);
                    self.selected_square = Some(pos);
                    Feedback::PickedUp
                } else {
                    Feedback::Idle
                }
            },
            None => match self.selected_square {
                Some(selected) => self.attempt(selected, pos),
                None => Feedback::Idle,
            },
        }
    }

    fn release(&mut self, target: Option<Position>) -> (feedback: Feedback)
        requires
            old(self)@.wf(),
        ensures
            final(self)@.wf(),
            final(self)@ == old(self)@.after_release(target),
            feedback == old(self)@.release_feedback(target),
    {
        match self.dragging_piece {
            Some(drag_pos) => match target {
                Some(target_pos) => self.attempt(drag_pos, target_pos),
                None => {
                    self.dragging_piece = None;
                    self.selected_square = None;
                    Feedback::Idle
                },
            },
            None => Feedback::Idle,
        }
    }

    fn attempt(&mut self, from: Position, to: Position) -> (feedback: Feedback)
        requires
            old(self)@.wf(),
        ensures
            final(self)@.wf(),
            final(self)@ == old(self)@.after_attempt(from, to),
            feedback == verdict(old(self)@.game.outcome(from, to)),
    {
        let feedback = match self.game.make_move(from, to) {
            Ok(_) => Feedback::Moved,
            Err(reason) => Feedback::Refused(reason),
        };
        self.selected_square = None;
        self.dragging_piece = None;
        feedback
    }
}

} // verus!
