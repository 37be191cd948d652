//! Why an attempted move was refused.

use vstd::prelude::*;

verus! {

/// The reason a move was refused. A refused move changes nothing.
#[derive(Debug, Clone, Copy, PartialEq, Eq, Structural)]
pub enum MoveError {
    /// The source square is empty, or off the board.
    NoPieceAtSource,
    /// The piece on the source square belongs to the side that is not to
    /// move.
    WrongSideToMove,
    /// The piece may not move to the destination.
    IllegalMove,
}

impl MoveError {
    /// The text shown for each reason.
    pub open spec fn spec_message(self) -> Seq<char> {
        match self {
            MoveError::NoPieceAtSource => "No piece at source position"@,
            MoveError::WrongSideToMove => "Not your piece"@,
            MoveError::IllegalMove => "Invalid move"@,
        }
    }

    /// A short description of the reason, fit to show to a player.
    pub fn message(&self) -> (text: String)
        ensures
            text@ == self.spec_message(),
    {
        match self {
            MoveError::NoPieceAtSource => "No piece at source position".to_owned(),
            MoveError::WrongSideToMove => "Not your piece".to_owned(),
            MoveError::IllegalMove => "Invalid move".to_owned(),
        }
    }
}

} // verus!
