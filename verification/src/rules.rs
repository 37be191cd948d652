//! Which moves the geometry of each piece allows on a given board.
//!
//! Legality here is geometry and occupancy only. Whether a move leaves the
//! mover's king attacked is not considered, and there is no castling, no
//! capture in passing and no promotion.

use vstd::prelude::*;
use crate::board::{holds_side, occupant, Squares};
use crate::piece::{Color, Piece, PieceType};
use crate::position::Position;

verus! {

/// The distance between two coordinates.
pub open spec fn gap(a: usize, b: usize) -> int {
    if a <= b {
        b - a
    } else {
        a - b
    }
}

/// The number of single steps, straight or diagonal, from `from` to `to`.
pub open spec fn span(from: Position, to: Position) -> int {
    if gap(from.row, to.row) >= gap(from.col, to.col) {
        gap(from.row, to.row)
    } else {
        gap(from.col, to.col)
    }
}

/// Whether the two squares share a row or a column.
pub open spec fn on_a_line(from: Position, to: Position) -> bool {
    from.row == to.row || from.col == to.col
}

/// Whether the two squares share a diagonal.
pub open spec fn on_a_diagonal(from: Position, to: Position) -> bool {
    gap(from.row, to.row) == gap(from.col, to.col)
}

/// The coordinate reached from `start` after `k` unit steps in the
/// direction of `target`.
pub open spec fn coordinate_along(start: usize, target: usize, k: int) -> usize {
    if target > start {
        (start + k) as usize
    } else if target < start {
        (start - k) as usize
    } else {
        start
    }
}

/// The square reached from `from` after `k` steps toward `to`, each step
/// moving one unit along every axis on which the two squares differ.
pub open spec fn square_along(from: Position, to: Position, k: int) -> Position {
    Position {
        row: coordinate_along(from.row, to.row, k),
        col: coordinate_along(from.col, to.col, k),
    }
}

/// Whether every square strictly between `from` and `to` is empty. It is
/// meant for squares that share a line or a diagonal.
pub open spec fn path_clear(squares: Squares, from: Position, to: Position) -> bool {
    forall|k: int|
        0 < k < span(from, to) ==> occupant(squares, #[trigger] square_along(from, to, k)) is None
}

/// The change of row of a pawn's single step: toward row 0 for White,
/// toward row 7 for Black.
pub open spec fn forward(color: Color) -> int {
    match color {
        Color::White => -1,
        Color::Black => 1,
    }
}

/// The row on which a side's pawns start.
pub open spec fn pawn_start_row(color: Color) -> usize {
    match color {
        Color::White => 6,
        Color::Black => 1,
    }
}

/// A pawn of `color` may step one square straight ahead onto an empty
/// square, two squares straight ahead from its starting row onto an empty
/// square, or one square diagonally ahead onto a piece of the other side.
/// The square that a double step passes over is not looked at.
pub open spec fn pawn_rule(squares: Squares, from: Position, to: Position, color: Color) -> bool {
    let row_change = to.row - from.row;
    let col_change = to.col - from.col;
    ||| col_change == 0 && row_change == forward(color) && occupant(squares, to) is None
    ||| col_change == 0 && from.row == pawn_start_row(color) && row_change == 2 * forward(color)
        && occupant(squares, to) is None
    ||| gap(from.col, to.col) == 1 && row_change == forward(color) && holds_side(
        squares,
        to,
        color.opposite(),
    )
}

/// A rook moves along its row or column over empty squares. A square
/// shares its row with itself, so this holds of a square and itself.
pub open spec fn rook_rule(squares: Squares, from: Position, to: Position) -> bool {
    on_a_line(from, to) && path_clear(squares, from, to)
}

/// A bishop moves at least one square along a diagonal over empty squares:
/// staying put is no bishop's move.
pub open spec fn bishop_rule(squares: Squares, from: Position, to: Position) -> bool {
    from != to && on_a_diagonal(from, to) && path_clear(squares, from, to)
}

/// A queen moves as a rook or as a bishop.
pub open spec fn queen_rule(squares: Squares, from: Position, to: Position) -> bool {
    rook_rule(squares, from, to) || bishop_rule(squares, from, to)
}

/// Whether pieces of this kind slide: they move any distance along a path
/// and may not pass over a piece.
pub open spec fn is_slider(kind: PieceType) -> bool {
    kind == PieceType::Rook || kind == PieceType::Bishop || kind == PieceType::Queen
}

/// Whether the two squares lie on a path along which pieces of this kind
/// slide: a line for a rook, a diagonal for a bishop, either for a queen.
pub open spec fn slides_between(kind: PieceType, from: Position, to: Position) -> bool {
    match kind {
        PieceType::Rook => on_a_line(from, to),
        PieceType::Bishop => on_a_diagonal(from, to),
        PieceType::Queen => on_a_line(from, to) || on_a_diagonal(from, to),
        _ => false,
    }
}

/// A king moves at most one row and at most one column.
pub open spec fn king_rule(from: Position, to: Position) -> bool {
    gap(from.row, to.row) <= 1 && gap(from.col, to.col) <= 1
}

/// A knight moves two along one axis and one along the other, whatever
/// stands in between.
pub open spec fn knight_rule(from: Position, to: Position) -> bool {
    ||| gap(from.row, to.row) == 2 && gap(from.col, to.col) == 1
    ||| gap(from.row, to.row) == 1 && gap(from.col, to.col) == 2
}

/// The rule of movement of `piece`, applied to the two squares.
pub open spec fn piece_rule(squares: Squares, from: Position, to: Position, piece: Piece) -> bool {
    match piece.piece_type {
        PieceType::Pawn => pawn_rule(squares, from, to, piece.color),
        PieceType::Rook => rook_rule(squares, from, to),
        PieceType::Bishop => bishop_rule(squares, from, to),
        PieceType::Queen => queen_rule(squares, from, to),
        PieceType::King => king_rule(from, to),
        PieceType::Knight => knight_rule(from, to),
    }
}

/// Whether the piece on `from` may move to `to`: the squares differ, `to`
/// is on the board, a piece stands on `from`, no piece of its own side
/// stands on `to`, and the rule of its kind allows the move.
pub open spec fn legal_move(squares: Squares, from: Position, to: Position) -> bool {
    &&& from != to
    &&& to.is_valid()
    &&& occupant(squares, from) matches Some(piece)
    &&& !holds_side(squares, to, piece.color)
    &&& piece_rule(squares, from, to, piece)
}

/// The distance between two coordinates.
pub(crate) fn distance(a: usize, b: usize) -> (d: usize)
    ensures
        d == gap(a, b),
{
    if a <= b {
        b - a
    } else {
        a - b
    }
}

/// One unit step from `current` in the direction of `target`.
pub(crate) fn step_toward(current: usize, target: usize) -> (next: usize)
    ensures
        next == coordinate_along(current, target, 1),
{
    if target > current {
        current + 1
    } else if target < current {
        current - 1
    } else {
        current
    }
}

} // verus!
