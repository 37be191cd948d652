//! The 8x8 grid of squares and what stands on them. The board knows
//! nothing of the rules of movement: it reads, writes and relocates.

use vstd::prelude::*;
use crate::piece::{Color, Piece, PieceType};
use crate::position::Position;

verus! {

/// The grid as rows of columns: `state[row][col]`.
pub type BoardState = [[Option<Piece>; 8]; 8];

/// The mathematical model of a board: each square on the board mapped to
/// the piece that stands on it, if any.
pub type Squares = Map<Position, Option<Piece>>;

/// Whether the map has an entry for each square on the board and for no
/// other.
pub open spec fn covers_board(squares: Squares) -> bool {
    forall|p: Position| squares.dom().contains(p) <==> p.is_valid()
}

/// The piece standing on `pos`. A square off the board holds nothing.
pub open spec fn occupant(squares: Squares, pos: Position) -> Option<Piece> {
    if squares.dom().contains(pos) {
        squares[pos]
    } else {
        None
    }
}

/// Whether a piece of the given side stands on `pos`.
pub open spec fn holds_side(squares: Squares, pos: Position, color: Color) -> bool {
    match occupant(squares, pos) {
        Some(piece) => piece.color == color,
        None => false,
    }
}

/// The number of pieces of `color` on the first `cols` squares of `row`.
pub open spec fn count_in_row(squares: Squares, color: Color, row: usize, cols: nat) -> nat
    decreases cols,
{
    if cols == 0 {
        0
    } else {
        count_in_row(squares, color, row, (cols - 1) as nat) + (if holds_side(
            squares,
            Position { row, col: (cols - 1) as usize },
            color,
        ) {
            1nat
        } else {
            0nat
        })
    }
}

/// The number of pieces of `color` on the first `rows` rows.
pub open spec fn count_in_rows(squares: Squares, color: Color, rows: nat) -> nat
    decreases rows,
{
    if rows == 0 {
        0
    } else {
        count_in_rows(squares, color, (rows - 1) as nat) + count_in_row(
            squares,
            color,
            (rows - 1) as usize,
            8,
        )
    }
}

/// The number of pieces of `color` on the board.
pub open spec fn piece_count(squares: Squares, color: Color) -> nat {
    count_in_rows(squares, color, 8)
}

/// The board after writing `piece` to `pos`. Writing off the board changes
/// nothing.
pub open spec fn place(squares: Squares, pos: Position, piece: Option<Piece>) -> Squares {
    if pos.is_valid() {
        squares.insert(pos, piece)
    } else {
        squares
    }
}

/// Whether relocating from `from` to `to` changes anything at all: both
/// squares are on the board and `from` is occupied.
pub open spec fn can_relocate(squares: Squares, from: Position, to: Position) -> bool {
    from.is_valid() && to.is_valid() && occupant(squares, from) is Some
}

/// The board after lifting the piece on `from` and setting it down on
/// `to`, replacing what stood there. Nothing changes unless
/// [`can_relocate`] holds.
pub open spec fn relocate(squares: Squares, from: Position, to: Position) -> Squares {
    if can_relocate(squares, from, to) {
        squares.insert(from, None).insert(to, occupant(squares, from))
    } else {
        squares
    }
}

/// The board with no piece on it.
pub open spec fn empty_squares() -> Squares {
    Map::new(|p: Position| p.is_valid(), |p: Position| None)
}

/// The kind of piece that starts on the given column of a back rank:
/// rook, knight, bishop, queen, king, bishop, knight, rook.
pub open spec fn back_rank_kind(col: usize) -> PieceType {
    if col == 0 || col == 7 {
        PieceType::Rook
    } else if col == 1 || col == 6 {
        PieceType::Knight
    } else if col == 2 || col == 5 {
        PieceType::Bishop
    } else if col == 3 {
        PieceType::Queen
    } else {
        PieceType::King
    }
}

/// Whether the row is one of the four that start occupied.
pub open spec fn is_home_row(row: usize) -> bool {
    row == 0 || row == 1 || row == 6 || row == 7
}

/// What stands on a square at the start of a game: Black's back rank on
/// row 0 and pawns on row 1, White's pawns on row 6 and back rank on row 7,
/// nothing in between.
pub open spec fn initial_occupant(pos: Position) -> Option<Piece> {
    if pos.row == 0 {
        Some(Piece { piece_type: back_rank_kind(pos.col), color: Color::Black })
    } else if pos.row == 1 {
        Some(Piece { piece_type: PieceType::Pawn, color: Color::Black })
    } else if pos.row == 6 {
        Some(Piece { piece_type: PieceType::Pawn, color: Color::White })
    } else if pos.row == 7 {
        Some(Piece { piece_type: back_rank_kind(pos.col), color: Color::White })
    } else {
        None
    }
}

/// The board at the start of a game.
pub open spec fn initial_squares() -> Squares {
    Map::new(|p: Position| p.is_valid(), |p: Position| initial_occupant(p))
}

/// Whether the row is one of the two on which a side starts: rows 0 and 1
/// for Black, rows 6 and 7 for White.
pub open spec fn is_home_row_of(color: Color, row: usize) -> bool {
    match color {
        Color::Black => row == 0 || row == 1,
        Color::White => row == 6 || row == 7,
    }
}

/// At the start a side fills its two home rows and has no piece elsewhere.
pub proof fn lemma_initial_row_count(color: Color, row: usize, cols: nat)
    requires
        row < 8,
        cols <= 8,
    ensures
        count_in_row(initial_squares(), color, row, cols) == (if is_home_row_of(color, row) {
            cols
        } else {
            0
        }),
    decreases cols,
{
    if cols > 0 {
        lemma_initial_row_count(color, row, (cols - 1) as nat);
        let last = Position { row, col: (cols - 1) as usize };
        assert(last.is_valid());
        assert(occupant(initial_squares(), last) == initial_occupant(last));
    }
}

/// The initial position holds sixteen pieces of each side, thirty-two in
/// all.
pub proof fn lemma_initial_piece_count()
    ensures
        piece_count(initial_squares(), Color::White) == 16,
        piece_count(initial_squares(), Color::Black) == 16,
{
    reveal_with_fuel(count_in_rows, 9);
    lemma_initial_row_count(Color::White, 0, 8);
    lemma_initial_row_count(Color::White, 1, 8);
    lemma_initial_row_count(Color::White, 2, 8);
    lemma_initial_row_count(Color::White, 3, 8);
    lemma_initial_row_count(Color::White, 4, 8);
    lemma_initial_row_count(Color::White, 5, 8);
    lemma_initial_row_count(Color::White, 6, 8);
    lemma_initial_row_count(Color::White, 7, 8);
    lemma_initial_row_count(Color::Black, 0, 8);
    lemma_initial_row_count(Color::Black, 1, 8);
    lemma_initial_row_count(Color::Black, 2, 8);
    lemma_initial_row_count(Color::Black, 3, 8);
    lemma_initial_row_count(Color::Black, 4, 8);
    lemma_initial_row_count(Color::Black, 5, 8);
    lemma_initial_row_count(Color::Black, 6, 8);
    lemma_initial_row_count(Color::Black, 7, 8);
}

/// An 8x8 grid of optional pieces.
#[derive(Debug, Clone)]
pub struct Board {
    state: BoardState,
}

impl View for Board {
    type V = Squares;

    closed spec fn view(&self) -> Squares {
        Map::new(
            |p: Position| p.is_valid(),
            |p: Position| self.state[p.row as int][p.col as int],
        )
    }
}

impl Board {
    /// The model of any board has exactly the squares of the board.
    pub proof fn lemma_view_covers_board(&self)
        ensures
            covers_board(self@),
    {
    }

    /// A board in the initial position.
    pub fn new() -> (board: Board)
        ensures
            board@ == initial_squares(),
    {
        let mut board = Board { state: [[None; 8]; 8] };
        let ghost blank = board@;
        board.setup_initial_position();
        assert forall|p: Position| p.is_valid() implies board@[p] == initial_occupant(p) by {
            assert(occupant(blank, p) is None);
            assert(occupant(board@, p) == initial_occupant(p));
        }
        assert(board@ =~= initial_squares());
        board
    }

    /// A board with no piece on it.
    pub fn empty() -> (board: Board)
        ensures
            board@ == empty_squares(),
    {
        let board = Board { state: [[None; 8]; 8] };
        assert(board@ =~= empty_squares());
        board
    }

    /// Sets up the four home rows and leaves the rows between them as they
    /// are.
    fn setup_initial_position(&mut self)
        ensures
            covers_board(final(self)@),
            forall|p: Position|
                p.is_valid() ==> #[trigger] occupant(final(self)@, p) == (if is_home_row(p.row) {
                    initial_occupant(p)
                } else {
                    occupant(old(self)@, p)
                }),
    {
        let back_row = [
            PieceType::Rook,
            PieceType::Knight,
            PieceType::Bishop,
            PieceType::Queen,
            PieceType::King,
            PieceType::Bishop,
            PieceType::Knight,
            PieceType::Rook,
        ];
        for col in 0..8usize
            invariant
                forall|c: int| 0 <= c < 8 ==> #[trigger] back_row[c] == back_rank_kind(c as usize),
                forall|r: int, c: int|
                    0 <= r < 8 && 0 <= c < 8 ==> #[trigger] self.state[r][c] == (if c < col
                        && is_home_row(r as usize) {
                        initial_occupant(Position { row: r as usize, col: c as usize })
                    } else {
                        old(self).state[r][c]
                    }),
        {
            self.state[0][col] = Some(Piece::new(back_row[col], Color::Black));
            self.state[1][col] = Some(Piece::new(PieceType::Pawn, Color::Black));
            self.state[6][col] = Some(Piece::new(PieceType::Pawn, Color::White));
            self.state[7][col] = Some(Piece::new(back_row[col], Color::White));
        }
    }

    /// The piece on `pos`, or `None` when the square is empty or off the
    /// board.
    pub fn get_piece(&self, pos: Position) -> (piece: Option<Piece>)
        ensures
            piece == occupant(self@, pos),
    {
        if pos.is_valid() {
            self.state[pos.row][pos.col]
        } else {
            None
        }
    }

    /// Writes `piece` to `pos` and returns `true`; off the board it writes
    /// nothing and returns `false`.
    pub fn set_piece(&mut self, pos: Position, piece: Option<Piece>) -> (written: bool)
        ensures
            written == pos.is_valid(),
            final(self)@ == place(old(self)@, pos, piece),
    {
        if pos.is_valid() {
            self.state[pos.row][pos.col] = piece;
            assert(self@ =~= place(old(self)@, pos, piece));
            true
        } else {
            false
        }
    }

    /// Moves whatever stands on `from` to `to` without asking whose piece
    /// it is or whether the move is legal, and returns the piece that stood
    /// on `to` before. When either square is off the board or `from` is
    /// empty, nothing moves and `None` is returned.
    pub fn move_piece(&mut self, from: Position, to: Position) -> (captured: Option<Piece>)
        ensures
            final(self)@ == relocate(old(self)@, from, to),
            captured == (if can_relocate(old(self)@, from, to) {
                occupant(old(self)@, to)
            } else {
                None
            }),
    {
        if !from.is_valid() || !to.is_valid() {
            return None;
        }
        let piece = match self.state[from.row][from.col] {
            Some(piece) => piece,
            None => {
                return None;
            },
        };
        let captured = self.state[to.row][to.col];
        self.state[from.row][from.col] = None;
        self.state[to.row][to.col] = Some(piece);
        assert(self@ =~= relocate(old(self)@, from, to));
        captured
    }

    /// The grid itself, row by row.
    pub fn get_state(&self) -> (state: &BoardState)
        ensures
            forall|r: int, c: int|
                0 <= r < 8 && 0 <= c < 8 ==> #[trigger] state[r][c] == occupant(
                    self@,
                    Position { row: r as usize, col: c as usize },
                ),
    {
        &self.state
    }
}

} // verus!
