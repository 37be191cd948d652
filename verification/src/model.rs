//! The mathematical model of a game: the board, the side to move, the move
//! log and the cursor into it, with the three transitions that change them.
//!
//! The log is linear. Records before the cursor are the moves that stand
//! played; records from the cursor on are moves that were taken back and
//! can be played again. Playing a fresh move discards them.

use vstd::prelude::*;
use crate::board::{covers_board, initial_squares, occupant, place, relocate, Squares};
use crate::error::MoveError;
use crate::move_record::MoveRecord;
use crate::piece::Color;
use crate::position::Position;
use crate::rules::legal_move;

verus! {

/// The side to move after `played` moves: White starts and the sides
/// alternate.
pub open spec fn side_to_move(played: nat) -> Color {
    if played % 2 == 0 {
        Color::White
    } else {
        Color::Black
    }
}

/// How an attempt by `side` to move from `from` to `to` ends: the first of
/// the three checks that fails names the error.
pub open spec fn attempt(squares: Squares, side: Color, from: Position, to: Position) -> Result<
    (),
    MoveError,
> {
    match occupant(squares, from) {
        None => Err(MoveError::NoPieceAtSource),
        Some(piece) => if piece.color != side {
            Err(MoveError::WrongSideToMove)
        } else if !legal_move(squares, from, to) {
            Err(MoveError::IllegalMove)
        } else {
            Ok(())
        },
    }
}

/// The record of moving from `from` to `to` on the given board.
pub open spec fn record_of(squares: Squares, from: Position, to: Position) -> MoveRecord {
    MoveRecord {
        from,
        to,
        moved_piece: occupant(squares, from)->Some_0,
        captured_piece: occupant(squares, to),
    }
}

/// Whether `record` is what `side` could have played on the given board,
/// recorded truthfully.
pub open spec fn faithful(squares: Squares, side: Color, record: MoveRecord) -> bool {
    &&& attempt(squares, side, record.from, record.to) is Ok
    &&& record == record_of(squares, record.from, record.to)
}

/// The board reached from the initial position by playing the first `n`
/// records of the log.
pub open spec fn replay(history: Seq<MoveRecord>, n: nat) -> Squares
    decreases n,
{
    if n == 0 {
        initial_squares()
    } else {
        relocate(replay(history, (n - 1) as nat), history[n - 1].from, history[n - 1].to)
    }
}

/// The board after taking `record` back: the mover returns to where it
/// came from, and what it captured returns to where it stood.
pub open spec fn take_back(squares: Squares, record: MoveRecord) -> Squares {
    place(place(squares, record.from, Some(record.moved_piece)), record.to, record.captured_piece)
}

/// The state of a game.
pub struct GameView {
    /// What stands on each square.
    pub board: Squares,
    /// The side to move.
    pub current_player: Color,
    /// The move log.
    pub history: Seq<MoveRecord>,
    /// How many records of the log stand played.
    pub cursor: nat,
}

impl GameView {
    /// The state at the start of a game.
    pub open spec fn initial() -> GameView {
        GameView {
            board: initial_squares(),
            current_player: Color::White,
            history: Seq::empty(),
            cursor: 0,
        }
    }

    /// The invariant of a game. The cursor lies within the log; the side to
    /// move follows from the number of moves played; the board is the
    /// initial position with the played records replayed; and each record
    /// of the log, played or taken back, was a legal move of the side then
    /// to move on the board as it then stood.
    pub open spec fn wf(self) -> bool {
        &&& self.cursor <= self.history.len()
        &&& self.current_player == side_to_move(self.cursor)
        &&& self.board == replay(self.history, self.cursor)
        &&& forall|i: nat|
            i < self.history.len() ==> faithful(
                #[trigger] replay(self.history, i),
                side_to_move(i),
                self.history[i as int],
            )
    }

    /// How an attempt to move from `from` to `to` ends in this state.
    pub open spec fn outcome(self, from: Position, to: Position) -> Result<(), MoveError> {
        attempt(self.board, self.current_player, from, to)
    }

    /// The state after the move from `from` to `to` has been played.
    pub open spec fn after_move(self, from: Position, to: Position) -> GameView {
        GameView {
            board: relocate(self.board, from, to),
            current_player: self.current_player.opposite(),
            history: self.history.take(self.cursor as int).push(record_of(self.board, from, to)),
            cursor: self.cursor + 1,
        }
    }

    /// The state after attempting the move from `from` to `to`: a refused
    /// move changes nothing.
    pub open spec fn attempt_move(self, from: Position, to: Position) -> GameView {
        if self.outcome(from, to) is Ok {
            self.after_move(from, to)
        } else {
            self
        }
    }

    /// Whether a played move can be taken back.
    pub open spec fn can_undo(self) -> bool {
        self.cursor > 0
    }

    /// Whether a move that was taken back can be played again.
    pub open spec fn can_redo(self) -> bool {
        self.cursor < self.history.len()
    }

    /// The state after the last played move has been taken back.
    pub open spec fn after_undo(self) -> GameView {
        GameView {
            board: take_back(self.board, self.history[self.cursor - 1]),
            current_player: self.current_player.opposite(),
            history: self.history,
            cursor: (self.cursor - 1) as nat,
        }
    }

    /// The state after asking to take a move back: nothing changes when no
    /// move stands played.
    pub open spec fn undo(self) -> GameView {
        if self.can_undo() {
            self.after_undo()
        } else {
            self
        }
    }

    /// The state after asking to play a move again: nothing changes when
    /// there is none.
    pub open spec fn redo(self) -> GameView {
        if self.can_redo() {
            self.after_redo()
        } else {
            self
        }
    }

    /// The state after the move at the cursor has been played again.
    pub open spec fn after_redo(self) -> GameView {
        GameView {
            board: relocate(
                self.board,
                self.history[self.cursor as int].from,
                self.history[self.cursor as int].to,
            ),
            current_player: self.current_player.opposite(),
            history: self.history,
            cursor: self.cursor + 1,
        }
    }
}

/// Replaying moves leaves the board with exactly the squares of the board.
pub proof fn lemma_replay_covers_board(history: Seq<MoveRecord>, n: nat)
    ensures
        covers_board(replay(history, n)),
    decreases n,
{
    if n > 0 {
        lemma_replay_covers_board(history, (n - 1) as nat);
    }
}

/// The board after `n` records depends on the first `n` records only.
pub proof fn lemma_replay_prefix(first: Seq<MoveRecord>, second: Seq<MoveRecord>, n: nat)
    requires
        n <= first.len(),
        n <= second.len(),
        forall|i: int| 0 <= i < n ==> first[i] == second[i],
    ensures
        replay(first, n) == replay(second, n),
    decreases n,
{
    if n > 0 {
        lemma_replay_prefix(first, second, (n - 1) as nat);
    }
}

/// Taking back a faithfully recorded move restores the board.
pub proof fn lemma_take_back_restores(squares: Squares, side: Color, record: MoveRecord)
    requires
        covers_board(squares),
        faithful(squares, side, record),
    ensures
        take_back(relocate(squares, record.from, record.to), record) == squares,
{
    assert(take_back(relocate(squares, record.from, record.to), record) =~= squares);
}

/// The initial state is well formed.
pub proof fn lemma_initial_wf()
    ensures
        GameView::initial().wf(),
{
}

/// Playing a move that is accepted keeps the state well formed.
pub proof fn lemma_after_move_wf(state: GameView, from: Position, to: Position)
    requires
        state.wf(),
        state.outcome(from, to) is Ok,
    ensures
        state.after_move(from, to).wf(),
{
    let next = state.after_move(from, to);
    assert forall|i: nat| i <= next.history.len() implies replay(next.history, i) == (if i
        <= state.cursor {
        replay(state.history, i)
    } else {
        next.board
    }) by {
        if i <= state.cursor {
            lemma_replay_prefix(next.history, state.history, i);
        } else {
            lemma_replay_prefix(next.history, state.history, state.cursor);
        }
    }
    assert(replay(next.history, next.cursor) == next.board);
    assert forall|i: nat| i < next.history.len() implies faithful(
        #[trigger] replay(next.history, i),
        side_to_move(i),
        next.history[i as int],
    ) by {
        assert(replay(next.history, i) == replay(state.history, i));
    }
}

/// Taking back a move keeps the state well formed.
pub proof fn lemma_after_undo_wf(state: GameView)
    requires
        state.wf(),
        state.can_undo(),
    ensures
        state.after_undo().wf(),
{
    let before = (state.cursor - 1) as nat;
    lemma_replay_covers_board(state.history, before);
    assert(faithful(replay(state.history, before), side_to_move(before), state.history[before as int]));
    lemma_take_back_restores(
        replay(state.history, before),
        side_to_move(before),
        state.history[before as int],
    );
}

/// Playing a move again keeps the state well formed.
pub proof fn lemma_after_redo_wf(state: GameView)
    requires
        state.wf(),
        state.can_redo(),
    ensures
        state.after_redo().wf(),
{
}

} // verus!
