//! Piece kinds, sides, and the piece value that a square holds.

use vstd::prelude::*;

verus! {

/// The six kinds of chess piece.
#[derive(Debug, Clone, Copy, PartialEq, Eq, Structural)]
pub enum PieceType {
    King,
    Queen,
    Rook,
    Bishop,
    Knight,
    Pawn,
}

/// The two sides.
#[derive(Debug, Clone, Copy, PartialEq, Eq, Structural)]
pub enum Color {
    White,
    Black,
}

impl Color {
    /// The other side.
    pub open spec fn spec_opposite(self) -> Color {
        match self {
            Color::White => Color::Black,
            Color::Black => Color::White,
        }
    }

    /// The other side: the one that moves after `self` has moved.
    #[verifier::when_used_as_spec(spec_opposite)]
    pub fn opposite(self) -> (other: Color)
        ensures
            other == self.spec_opposite(),
    {
        match self {
            Color::White => Color::Black,
            Color::Black => Color::White,
        }
    }
}

/// A piece: a kind and a side. Two pieces of the same kind and side are
/// indistinguishable.
#[derive(Debug, Clone, Copy, PartialEq, Eq, Structural)]
pub struct Piece {
    pub piece_type: PieceType,
    pub color: Color,
}

impl PieceType {
    /// The place of the kind in the order in which Unicode lists the chess
    /// symbols: king, queen, rook, bishop, knight, pawn.
    pub open spec fn symbol_rank(self) -> int {
        match self {
            PieceType::King => 0,
            PieceType::Queen => 1,
            PieceType::Rook => 2,
            PieceType::Bishop => 3,
            PieceType::Knight => 4,
            PieceType::Pawn => 5,
        }
    }
}

impl Piece {
    /// The chess symbol of the piece. Unicode lists the six white symbols
    /// from U+2654 on, then the six black ones, each side in the order of
    /// [`PieceType::symbol_rank`].
    pub open spec fn symbol(self) -> char {
        let side_offset: int = match self.color {
            Color::White => 0,
            Color::Black => 6,
        };
        (0x2654 + side_offset + self.piece_type.symbol_rank()) as char
    }

    /// Where the piece is drawn from in a sheet of four rows of three
    /// pictures, as row and column. White takes the first two rows and
    /// Black the last two. Of a side's two rows the first holds pawn,
    /// knight and bishop, the second rook, queen and king.
    pub open spec fn sheet_cell(self) -> (usize, usize) {
        let side_rows: usize = match self.color {
            Color::White => 0,
            Color::Black => 2,
        };
        match self.piece_type {
            PieceType::Pawn => (side_rows, 0),
            PieceType::Knight => (side_rows, 1),
            PieceType::Bishop => (side_rows, 2),
            PieceType::Rook => ((side_rows + 1) as usize, 0),
            PieceType::Queen => ((side_rows + 1) as usize, 1),
            PieceType::King => ((side_rows + 1) as usize, 2),
        }
    }

    /// A piece of the given kind and side.
    pub fn new(piece_type: PieceType, color: Color) -> (piece: Piece)
        ensures
            piece == (Piece { piece_type, color }),
    {
        Piece { piece_type, color }
    }

    /// The Unicode chess symbol of the piece.
    pub fn unicode_symbol(&self) -> (symbol: char)
        ensures
            symbol == self.symbol(),
    {
        match (self.color, self.piece_type) {
            (Color::White, PieceType::King) => '\u{2654}',
            (Color::White, PieceType::Queen) => '\u{2655}',
            (Color::White, PieceType::Rook) => '\u{2656}',
            (Color::White, PieceType::Bishop) => '\u{2657}',
            (Color::White, PieceType::Knight) => '\u{2658}',
            (Color::White, PieceType::Pawn) => '\u{2659}',
            (Color::Black, PieceType::King) => '\u{265A}',
            (Color::Black, PieceType::Queen) => '\u{265B}',
            (Color::Black, PieceType::Rook) => '\u{265C}',
            (Color::Black, PieceType::Bishop) => '\u{265D}',
            (Color::Black, PieceType::Knight) => '\u{265E}',
            (Color::Black, PieceType::Pawn) => '\u{265F}',
        }
    }

    /// The row and column of the piece's picture in the sprite sheet.
    pub fn sprite_cell(&self) -> (cell: (usize, usize))
        ensures
            cell == self.sheet_cell(),
            cell.0 < 4,
            cell.1 < 3,
    {
        match (self.color, self.piece_type) {
            (Color::White, PieceType::Pawn) => (0, 0),
            (Color::White, PieceType::Knight) => (0, 1),
            (Color::White, PieceType::Bishop) => (0, 2),
            (Color::White, PieceType::Rook) => (1, 0),
            (Color::White, PieceType::Queen) => (1, 1),
            (Color::White, PieceType::King) => (1, 2),
            (Color::Black, PieceType::Pawn) => (2, 0),
            (Color::Black, PieceType::Knight) => (2, 1),
            (Color::Black, PieceType::Bishop) => (2, 2),
            (Color::Black, PieceType::Rook) => (3, 0),
            (Color::Black, PieceType::Queen) => (3, 1),
            (Color::Black, PieceType::King) => (3, 2),
        }
    }
}

} // verus!
