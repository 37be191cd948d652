//! What holds of every game: taking moves back undoes them, a fresh move
//! ends the log, and what each kind of piece can and cannot do.

use vstd::prelude::*;
use crate::board::{covers_board, holds_side, occupant, place, Squares};
use crate::error::MoveError;
use crate::model::{
    attempt, lemma_after_move_wf, lemma_after_redo_wf, lemma_after_undo_wf,
    lemma_replay_covers_board, lemma_replay_prefix, lemma_take_back_restores, GameView,
};
use crate::piece::PieceType;
use crate::position::Position;
use crate::rules::{
    bishop_rule, forward, is_slider, knight_rule, on_a_diagonal, on_a_line, path_clear,
    pawn_start_row, queen_rule, rook_rule, slides_between, span, square_along,
};

verus! {

/// The state after attempting each of `moves` in turn, each given as its
/// source and destination. A refused move leaves the state as it was.
pub open spec fn play(state: GameView, moves: Seq<(Position, Position)>) -> GameView
    decreases moves.len(),
{
    if moves.len() == 0 {
        state
    } else {
        play(state.attempt_move(moves[0].0, moves[0].1), moves.drop_first())
    }
}

/// Whether each of `moves`, attempted in turn, is accepted.
pub open spec fn all_accepted(state: GameView, moves: Seq<(Position, Position)>) -> bool
    decreases moves.len(),
{
    moves.len() == 0 || (state.outcome(moves[0].0, moves[0].1) is Ok && all_accepted(
        state.after_move(moves[0].0, moves[0].1),
        moves.drop_first(),
    ))
}

/// The state after asking `times` times to take a move back.
pub open spec fn undo_times(state: GameView, times: nat) -> GameView
    decreases times,
{
    if times == 0 {
        state
    } else {
        undo_times(state.undo(), (times - 1) as nat)
    }
}

/// Taking back a move that was just played restores the board, the side to
/// move and the cursor, and leaves the played part of the log as it was.
pub proof fn lemma_undo_reverts_move(state: GameView, from: Position, to: Position)
    requires
        state.wf(),
        state.outcome(from, to) is Ok,
    ensures
        state.after_move(from, to).can_undo(),
        state.after_move(from, to).after_undo().board == state.board,
        state.after_move(from, to).after_undo().current_player == state.current_player,
        state.after_move(from, to).after_undo().cursor == state.cursor,
        state.after_move(from, to).after_undo().history.take(state.cursor as int)
            == state.history.take(state.cursor as int),
{
    lemma_replay_covers_board(state.history, state.cursor);
    let next = state.after_move(from, to);
    assert(next.history[state.cursor as int] == next.history.last());
    lemma_take_back_restores(state.board, state.current_player, next.history.last());
    assert(next.after_undo().history.take(state.cursor as int) =~= state.history.take(
        state.cursor as int,
    ));
}

/// Playing accepted moves keeps the state well formed, advances the cursor
/// by one for each, keeps the part of the log that stood played before, and
/// ends with the cursor at the end of the log.
pub proof fn lemma_play_accepted(state: GameView, moves: Seq<(Position, Position)>)
    requires
        state.wf(),
        all_accepted(state, moves),
    ensures
        play(state, moves).wf(),
        play(state, moves).cursor == state.cursor + moves.len(),
        play(state, moves).history.take(state.cursor as int) == state.history.take(
            state.cursor as int,
        ),
        moves.len() > 0 ==> !play(state, moves).can_redo(),
    decreases moves.len(),
{
    if moves.len() > 0 {
        let next = state.after_move(moves[0].0, moves[0].1);
        lemma_after_move_wf(state, moves[0].0, moves[0].1);
        lemma_play_accepted(next, moves.drop_first());
        let end = play(state, moves);
        assert(end.history.take(state.cursor as int) =~= end.history.take(
            next.cursor as int,
        ).take(state.cursor as int));
        assert(next.history.take(next.cursor as int).take(state.cursor as int)
            =~= state.history.take(state.cursor as int));
    } else {
        assert(state.history.take(state.cursor as int) =~= state.history.take(
            state.cursor as int,
        ));
    }
}

/// Taking back no more moves than stand played keeps the state well
/// formed, moves the cursor back by one for each, and leaves the log as it
/// was.
pub proof fn lemma_undo_times(state: GameView, times: nat)
    requires
        state.wf(),
        times <= state.cursor,
    ensures
        undo_times(state, times).wf(),
        undo_times(state, times).cursor == state.cursor - times,
        undo_times(state, times).history == state.history,
    decreases times,
{
    if times > 0 {
        lemma_after_undo_wf(state);
        lemma_undo_times(state.undo(), (times - 1) as nat);
    }
}

/// Undo is a true inverse: after any number of accepted moves, taking back
/// as many moves gives again the board, the side to move and the cursor
/// from before the first of them.
pub proof fn lemma_undo_inverts_play(state: GameView, moves: Seq<(Position, Position)>)
    requires
        state.wf(),
        all_accepted(state, moves),
    ensures
        undo_times(play(state, moves), moves.len()).wf(),
        undo_times(play(state, moves), moves.len()).board == state.board,
        undo_times(play(state, moves), moves.len()).current_player == state.current_player,
        undo_times(play(state, moves), moves.len()).cursor == state.cursor,
{
    lemma_play_accepted(state, moves);
    let played = play(state, moves);
    lemma_undo_times(played, moves.len());
    let end = undo_times(played, moves.len());
    assert forall|i: int| 0 <= i < state.cursor implies end.history[i] == state.history[i] by {
        assert(played.history.take(state.cursor as int)[i] == state.history.take(
            state.cursor as int,
        )[i]);
    }
    lemma_replay_prefix(end.history, state.history, state.cursor);
}

/// Playing again a move that was just taken back gives the state from
/// before it was taken back.
pub proof fn lemma_redo_inverts_undo(state: GameView)
    requires
        state.wf(),
        state.can_undo(),
    ensures
        state.after_undo().can_redo(),
        state.after_undo().after_redo() == state,
{
    lemma_after_undo_wf(state);
    lemma_after_redo_wf(state.after_undo());
}

/// Taking back a move that was just played again gives the state from
/// before it was played again.
pub proof fn lemma_undo_inverts_redo(state: GameView)
    requires
        state.wf(),
        state.can_redo(),
    ensures
        state.after_redo().can_undo(),
        state.after_redo().after_undo() == state,
{
    lemma_after_redo_wf(state);
    lemma_after_undo_wf(state.after_redo());
}

/// With no move played there is nothing to take back, and with no move
/// taken back there is nothing to play again: asking changes nothing. Both
/// hold of a game that has just begun.
pub proof fn lemma_nothing_to_undo_or_redo(state: GameView)
    ensures
        state.cursor == 0 ==> !state.can_undo() && state.undo() == state,
        state.cursor == state.history.len() ==> !state.can_redo() && state.redo() == state,
        !GameView::initial().can_undo() && GameView::initial().undo() == GameView::initial(),
        !GameView::initial().can_redo() && GameView::initial().redo() == GameView::initial(),
{
}

/// An accepted move leaves nothing to play again: the log ends with it.
pub proof fn lemma_move_ends_log(state: GameView, from: Position, to: Position)
    requires
        state.cursor <= state.history.len(),
    ensures
        !state.after_move(from, to).can_redo(),
        state.after_move(from, to).redo() == state.after_move(from, to),
{
}

/// While nothing can be played again, attempting moves, accepted or not,
/// does not change that.
pub proof fn lemma_play_offers_no_redo(state: GameView, moves: Seq<(Position, Position)>)
    requires
        state.cursor <= state.history.len(),
        !state.can_redo(),
    ensures
        !play(state, moves).can_redo(),
        play(state, moves).redo() == play(state, moves),
    decreases moves.len(),
{
    if moves.len() > 0 {
        lemma_play_offers_no_redo(
            state.attempt_move(moves[0].0, moves[0].1),
            moves.drop_first(),
        );
    }
}

/// Branching discards what was taken back: once a move has been taken back
/// and another has been played in its place, asking to play again is
/// refused, and stays refused however many further moves are attempted.
pub proof fn lemma_branch_discards_redo(
    state: GameView,
    from: Position,
    to: Position,
    later: Seq<(Position, Position)>,
)
    requires
        state.wf(),
        state.can_undo(),
        state.after_undo().outcome(from, to) is Ok,
    ensures
        !play(state.after_undo().after_move(from, to), later).can_redo(),
        play(state.after_undo().after_move(from, to), later).redo() == play(
            state.after_undo().after_move(from, to),
            later,
        ),
{
    lemma_move_ends_log(state.after_undo(), from, to);
    lemma_play_offers_no_redo(state.after_undo().after_move(from, to), later);
}

/// A pawn's double step. Leaving aside the boards on which the pawn jumps
/// over a piece, the step is accepted exactly when the pawn belongs to the
/// side to move and stands on its starting row, and both the square it
/// passes over and the square it lands on are empty.
pub proof fn lemma_pawn_double_step(state: GameView, from: Position, to: Position)
    requires
        covers_board(state.board),
        occupant(state.board, from) matches Some(piece) && piece.piece_type == PieceType::Pawn
            && to.col == from.col && to.row - from.row == 2 * forward(piece.color),
        occupant(state.board, square_along(from, to, 1)) is None || state.outcome(from, to) is Err,
    ensures
        state.outcome(from, to) is Ok <==> {
            &&& state.current_player == occupant(state.board, from)->Some_0.color
            &&& from.row == pawn_start_row(state.current_player)
            &&& occupant(state.board, square_along(from, to, 1)) is None
            &&& occupant(state.board, to) is None
        },
{
    assert(from.is_valid());
}

/// No piece captures its own side: a move of the side to move onto a square
/// that holds one of its own pieces is refused as illegal, whatever kind of
/// piece moves.
pub proof fn lemma_own_piece_blocks(state: GameView, from: Position, to: Position)
    requires
        holds_side(state.board, from, state.current_player),
        holds_side(state.board, to, state.current_player),
    ensures
        state.outcome(from, to) == Err::<(), MoveError>(MoveError::IllegalMove),
{
}

/// A rook, a bishop or a queen does not pass over a piece: with any piece,
/// of either side, on a square between `from` and `to`, the move is refused
/// as illegal.
pub proof fn lemma_blocked_path_refused(state: GameView, from: Position, to: Position, k: int)
    requires
        occupant(state.board, from) matches Some(piece) && piece.color == state.current_player
            && is_slider(piece.piece_type),
        0 < k < span(from, to),
        occupant(state.board, square_along(from, to, k)) is Some,
    ensures
        state.outcome(from, to) == Err::<(), MoveError>(MoveError::IllegalMove),
{
}

/// A rook along a line, a bishop along a diagonal and a queen along either,
/// moving to another square of the board that does not hold a piece of
/// their own side, are accepted exactly when every square in between is
/// empty.
pub proof fn lemma_clear_path_accepted(state: GameView, from: Position, to: Position)
    requires
        occupant(state.board, from) matches Some(piece) && piece.color == state.current_player
            && slides_between(piece.piece_type, from, to),
        from != to,
        to.is_valid(),
        !holds_side(state.board, to, state.current_player),
    ensures
        state.outcome(from, to) is Ok <==> path_clear(state.board, from, to),
{
}

/// The squares strictly between two squares of the board that share a
/// line or a diagonal are on the board, and differ from both ends and from
/// one another.
pub proof fn lemma_squares_between(from: Position, to: Position, k: int, j: int)
    requires
        from.is_valid(),
        to.is_valid(),
        on_a_line(from, to) || on_a_diagonal(from, to),
        0 < k < span(from, to),
    ensures
        square_along(from, to, k).is_valid(),
        square_along(from, to, k) != from,
        square_along(from, to, k) != to,
        0 < j < span(from, to) && j != k ==> square_along(from, to, j) != square_along(from, to, k),
{
}

/// A move of a rook, a bishop or a queen that a single piece in between
/// blocks is accepted once that piece is taken off the board.
pub proof fn lemma_clearing_unblocks(state: GameView, from: Position, to: Position, k: int)
    requires
        covers_board(state.board),
        occupant(state.board, from) matches Some(piece) && piece.color == state.current_player
            && slides_between(piece.piece_type, from, to),
        to.is_valid(),
        !holds_side(state.board, to, state.current_player),
        0 < k < span(from, to),
        forall|j: int|
            0 < j < span(from, to) && j != k ==> occupant(
                state.board,
                #[trigger] square_along(from, to, j),
            ) is None,
    ensures
        attempt(
            place(state.board, square_along(from, to, k), None),
            state.current_player,
            from,
            to,
        ) is Ok,
{
    let cleared = place(state.board, square_along(from, to, k), None);
    lemma_squares_between(from, to, k, k);
    assert forall|j: int| 0 < j < span(from, to) implies occupant(
        cleared,
        #[trigger] square_along(from, to, j),
    ) is None by {
        lemma_squares_between(from, to, k, j);
    }
}

/// Whether a path is clear depends only on which of the squares in between
/// are empty, not on what stands on the others or whose it is. So it is
/// with the rules of the rook, the bishop and the queen.
pub proof fn lemma_path_reads_emptiness(
    first: Squares,
    second: Squares,
    from: Position,
    to: Position,
)
    requires
        forall|k: int|
            0 < k < span(from, to) ==> (occupant(first, #[trigger] square_along(from, to, k))
                is None) == (occupant(second, square_along(from, to, k)) is None),
    ensures
        path_clear(first, from, to) == path_clear(second, from, to),
        rook_rule(first, from, to) == rook_rule(second, from, to),
        bishop_rule(first, from, to) == bishop_rule(second, from, to),
        queen_rule(first, from, to) == queen_rule(second, from, to),
{
    if path_clear(first, from, to) {
        assert forall|k: int| 0 < k < span(from, to) implies occupant(
            second,
            #[trigger] square_along(from, to, k),
        ) is None by {
            assert(occupant(first, square_along(from, to, k)) is None);
        }
    }
    if path_clear(second, from, to) {
        assert forall|k: int| 0 < k < span(from, to) implies occupant(
            first,
            #[trigger] square_along(from, to, k),
        ) is None by {
            assert(occupant(second, square_along(from, to, k)) is None);
        }
    }
}

/// A rook keeps to its row or column: it has no move to another square of
/// a diagonal through its own, nor to a square a knight's move away,
/// whatever the board.
pub proof fn lemma_rook_needs_a_line(squares: Squares, from: Position, to: Position)
    requires
        from != to,
        on_a_diagonal(from, to) || knight_rule(from, to),
    ensures
        !rook_rule(squares, from, to),
{
}

/// A bishop keeps to its diagonals and does not stay put: it has no move
/// to its own square, to another square of its row or column, nor to a
/// square a knight's move away, whatever the board.
pub proof fn lemma_bishop_needs_a_diagonal(squares: Squares, from: Position, to: Position)
    requires
        on_a_line(from, to) || knight_rule(from, to),
    ensures
        !bishop_rule(squares, from, to),
{
}

/// The knight's rule holds of two squares in either order.
pub proof fn lemma_knight_rule_symmetric(first: Position, second: Position)
    ensures
        knight_rule(first, second) == knight_rule(second, first),
{
}

/// A knight has eight targets at most: the rule holds exactly of the
/// squares at the eight offsets of two rows and one column, or one row and
/// two columns.
pub proof fn lemma_knight_targets(from: Position, to: Position)
    ensures
        knight_rule(from, to) <==> {
            let row_change = to.row - from.row;
            let col_change = to.col - from.col;
            ||| row_change == -2 && col_change == -1
            ||| row_change == -2 && col_change == 1
            ||| row_change == -1 && col_change == -2
            ||| row_change == -1 && col_change == 2
            ||| row_change == 1 && col_change == -2
            ||| row_change == 1 && col_change == 2
            ||| row_change == 2 && col_change == -1
            ||| row_change == 2 && col_change == 1
        },
{
}

/// A knight jumps: a knight of the side to move is accepted exactly when
/// its destination is on the board, lies two squares along one axis and one
/// along the other, and holds no piece of its own side. What stands on any
/// other square has no say.
pub proof fn lemma_knight_jumps(state: GameView, from: Position, to: Position)
    requires
        occupant(state.board, from) matches Some(piece) && piece.color == state.current_player
            && piece.piece_type == PieceType::Knight,
    ensures
        state.outcome(from, to) is Ok <==> {
            &&& to.is_valid()
            &&& knight_rule(from, to)
            &&& !holds_side(state.board, to, state.current_player)
        },
{
}

} // verus!
