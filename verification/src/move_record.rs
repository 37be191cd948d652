//! One entry of the move log.

use vstd::prelude::*;
use crate::piece::Piece;
use crate::position::Position;

verus! {

/// A move that was played: where from, where to, which piece moved, and
/// which piece it captured, if any.
#[derive(Debug, Clone)]
pub struct MoveRecord {
    pub from: Position,
    pub to: Position,
    pub moved_piece: Piece,
    pub captured_piece: Option<Piece>,
}

impl MoveRecord {
    /// A record of the given move.
    pub fn new(
        from: Position,
        to: Position,
        moved_piece: Piece,
        captured_piece: Option<Piece>,
    ) -> (record: MoveRecord)
        ensures
            record == (MoveRecord { from, to, moved_piece, captured_piece }),
    {
        MoveRecord { from, to, moved_piece, captured_piece }
    }
}

} // verus!
