//! Squares of the 8x8 grid and their two-character names.
//!
//! Columns 0..=7 are the files `a`..=`h`. Row 0 is rank `8` (Black's back
//! rank) and row 7 is rank `1` (White's back rank).

use vstd::prelude::*;
use vstd::string::StrSliceExecFns;

verus! {

/// A square, by row and column. A square is on the board when both
/// coordinates are below 8.
#[derive(Debug, Clone, Copy, PartialEq, Eq, Structural)]
pub struct Position {
    pub row: usize,
    pub col: usize,
}

/// The letter of a column: `a` for column 0 up to `h` for column 7, and `?`
/// for a column that is off the board.
pub open spec fn file_char(col: usize) -> char {
    if col < 8 {
        ('a' as int + col) as char
    } else {
        '?'
    }
}

/// The digit of a row: `8` for row 0 down to `1` for row 7, and `?` for a
/// row that is off the board.
pub open spec fn rank_char(row: usize) -> char {
    if row < 8 {
        ('8' as int - row) as char
    } else {
        '?'
    }
}

/// Whether `text` names a square: exactly two characters, a file letter in
/// `a..=h` followed by a rank digit in `1..=8`.
pub open spec fn is_notation(text: Seq<char>) -> bool {
    &&& text.len() == 2
    &&& 'a' <= text[0] <= 'h'
    &&& '1' <= text[1] <= '8'
}

/// The square that `text` names, if it names one.
pub open spec fn parse_notation(text: Seq<char>) -> Option<Position> {
    if is_notation(text) {
        Some(
            Position {
                row: ('8' as int - text[1] as int) as usize,
                col: (text[0] as int - 'a' as int) as usize,
            },
        )
    } else {
        None
    }
}

/// Appending a character extends the string's view by that character, as
/// `String::push` is documented to do.
pub assume_specification[ String::push ](s: &mut String, c: char)
    ensures
        final(s)@ == old(s)@.push(c),
;

impl Position {
    /// Whether both coordinates are on the board.
    pub open spec fn spec_is_valid(&self) -> bool {
        self.row < 8 && self.col < 8
    }

    /// The two-character name of the square: file letter, then rank digit.
    pub open spec fn notation(&self) -> Seq<char> {
        seq![file_char(self.col), rank_char(self.row)]
    }

    /// The square at `row`, `col`, or `None` when either is off the board.
    pub fn new(row: usize, col: usize) -> (result: Option<Position>)
        ensures
            result == (if row < 8 && col < 8 {
                Some(Position { row, col })
            } else {
                None
            }),
    {
        if row < 8 && col < 8 {
            Some(Position { row, col })
        } else {
            None
        }
    }

    /// Parses a square name such as `e4`. Anything but a file letter
    /// followed by a rank digit gives `None`.
    pub fn from_chess_notation(notation: &str) -> (result: Option<Position>)
        ensures
            result == parse_notation(notation@),
            result matches Some(p) ==> p.spec_is_valid() && p.notation() == notation@,
    {
        if notation.unicode_len() != 2 {
            return None;
        }
        let col: usize = match notation.get_char(0) {
            'a' => 0,
            'b' => 1,
            'c' => 2,
            'd' => 3,
            'e' => 4,
            'f' => 5,
            'g' => 6,
            'h' => 7,
            _ => {
                return None;
            },
        };
        let row: usize = match notation.get_char(1) {
            '1' => 7,
            '2' => 6,
            '3' => 5,
            '4' => 4,
            '5' => 3,
            '6' => 2,
            '7' => 1,
            '8' => 0,
            _ => {
                return None;
            },
        };
        let p = Position { row, col };
        assert(p.notation() =~= notation@);
        Some(p)
    }

    /// The name of the square, such as `e4`. A coordinate that is off the
    /// board is written as `?`.
    pub fn to_chess_notation(&self) -> (text: String)
        ensures
            text@ == self.notation(),
    {
        let col_char = match self.col {
            0 => 'a',
            1 => 'b',
            2 => 'c',
            3 => 'd',
            4 => 'e',
            5 => 'f',
            6 => 'g',
            7 => 'h',
            _ => '?',
        };
        let row_char = match self.row {
            0 => '8',
            1 => '7',
            2 => '6',
            3 => '5',
            4 => '4',
            5 => '3',
            6 => '2',
            7 => '1',
            _ => '?',
        };
        let mut text = String::new();
        text.push(col_char);
        text.push(row_char);
        assert(text@ =~= self.notation());
        text
    }

    /// Whether the square is on the board.
    #[verifier::when_used_as_spec(spec_is_valid)]
    pub fn is_valid(&self) -> (valid: bool)
        ensures
            valid == self.spec_is_valid(),
    {
        self.row < 8 && self.col < 8
    }
}

/// Naming a square and parsing the name gives the square back.
pub proof fn lemma_parse_of_notation(p: Position)
    requires
        p.is_valid(),
    ensures
        is_notation(p.notation()),
        parse_notation(p.notation()) == Some(p),
{
}

/// Parsing a square name and naming the result gives the text back.
pub proof fn lemma_notation_of_parse(text: Seq<char>)
    requires
        is_notation(text),
    ensures
        parse_notation(text) is Some,
        parse_notation(text)->Some_0.is_valid(),
        parse_notation(text)->Some_0.notation() == text,
{
    assert(parse_notation(text)->Some_0.notation() =~= text);
}

} // verus!
