//! Colors, board coordinates and pieces.
//!
//! A [`Position`] is a pair of signed coordinates. Coordinates outside
//! `0..=7` are representable on purpose: the stepping helpers never clamp, and
//! callers test [`Position::is_on_board`] on what they derive.

use crate::weights::{
    BLACK_BISHOP_POSITION_WEIGHTS, BLACK_KING_POSITION_WEIGHTS, BLACK_KNIGHT_POSITION_WEIGHTS,
    BLACK_PAWN_POSITION_WEIGHTS, BLACK_QUEEN_POSITION_WEIGHTS, BLACK_ROOK_POSITION_WEIGHTS,
    WHITE_BISHOP_POSITION_WEIGHTS, WHITE_KING_POSITION_WEIGHTS, WHITE_KNIGHT_POSITION_WEIGHTS,
    WHITE_PAWN_POSITION_WEIGHTS, WHITE_QUEEN_POSITION_WEIGHTS, WHITE_ROOK_POSITION_WEIGHTS,
};
use core::ops::Not;
use vstd::prelude::*;
use vstd::string::StringExecFns;

verus! {

/// One of the two sides.
#[derive(Clone, Copy, Debug, PartialEq, Eq, Structural, PartialOrd, Ord, Hash)]
pub enum Color {
    White,
    Black,
}

pub const WHITE: Color = Color::White;

pub const BLACK: Color = Color::Black;

impl Color {
    /// The opposing side.
    pub open spec fn opponent(self) -> Color {
        match self {
            Color::White => Color::Black,
            Color::Black => Color::White,
        }
    }

    /// The direction in which this side's pawns advance: `+1` for White,
    /// `-1` for Black.
    pub open spec fn forward(self) -> int {
        match self {
            Color::White => 1,
            Color::Black => -1,
        }
    }

    /// The rank on which this side's pieces start: `0` for White, `7` for
    /// Black.
    pub open spec fn home_row(self) -> int {
        match self {
            Color::White => 0,
            Color::Black => 7,
        }
    }

    /// The English name of the side: `"White"` or `"Black"`.
    pub fn name(&self) -> (r: &'static str)
        ensures
            r@ == (match *self {
                Color::White => "White"@,
                Color::Black => "Black"@,
            }),
    {
        match self {
            Color::White => "White",
            Color::Black => "Black",
        }
    }
}

impl Not for Color {
    type Output = Color;

    /// The opposing side; `!color` in ordinary code.
    fn not(self) -> (r: Color) {
        match self {
            Color::White => Color::Black,
            Color::Black => Color::White,
        }
    }
}

impl vstd::std_specs::ops::NotSpecImpl for Color {
    open spec fn obeys_not_spec() -> bool {
        true
    }

    open spec fn not_req(self) -> bool {
        true
    }

    open spec fn not_spec(self) -> Color {
        self.opponent()
    }
}

/// The absolute value of `a - b`.
pub open spec fn gap(a: int, b: int) -> int {
    if a >= b {
        a - b
    } else {
        b - a
    }
}

/// The coordinate `k` steps from `a` in the direction of `b`; `a` itself
/// when the two are equal.
pub open spec fn toward(a: int, b: int, k: int) -> int {
    if b > a {
        a + k
    } else if b < a {
        a - k
    } else {
        a
    }
}

fn exec_gap(a: i32, b: i32) -> (r: i64)
    ensures
        r == gap(a as int, b as int),
        0 <= r <= 0xffff_ffff,
{
    let x: i64 = a as i64;
    let y: i64 = b as i64;
    if x >= y {
        x - y
    } else {
        y - x
    }
}

/// Is `c` white space, as Unicode defines it?
pub open spec fn is_white_space(c: char) -> bool {
    ||| '\u{9}' <= c <= '\u{d}'
    ||| c == ' '
    ||| c == '\u{85}'
    ||| c == '\u{a0}'
    ||| c == '\u{1680}'
    ||| '\u{2000}' <= c <= '\u{200a}'
    ||| c == '\u{2028}'
    ||| c == '\u{2029}'
    ||| c == '\u{202f}'
    ||| c == '\u{205f}'
    ||| c == '\u{3000}'
}

/// The number of white-space characters with which `s` begins.
pub open spec fn leading_white_space(s: Seq<char>) -> int
    decreases s.len(),
{
    if s.len() > 0 && is_white_space(s[0]) {
        1 + leading_white_space(s.drop_first())
    } else {
        0
    }
}

/// The column that the file letter `c` names, in either case.
pub open spec fn file_of(c: char) -> Option<i32> {
    if c == 'a' || c == 'A' {
        Some(0)
    } else if c == 'b' || c == 'B' {
        Some(1)
    } else if c == 'c' || c == 'C' {
        Some(2)
    } else if c == 'd' || c == 'D' {
        Some(3)
    } else if c == 'e' || c == 'E' {
        Some(4)
    } else if c == 'f' || c == 'F' {
        Some(5)
    } else if c == 'g' || c == 'G' {
        Some(6)
    } else if c == 'h' || c == 'H' {
        Some(7)
    } else {
        None
    }
}

/// The value of the decimal digit `c`.
pub open spec fn digit_of(c: char) -> Option<i32> {
    if '0' <= c <= '9' {
        Some((c as int - '0' as int) as i32)
    } else {
        None
    }
}

/// The decimal digit that stands for `d`.
pub open spec fn digit_char(d: int) -> char {
    ('0' as int + d) as char
}

/// The decimal digits of `n`, the most significant first.
pub open spec fn digits(n: nat) -> Seq<char>
    decreases n,
{
    if n < 10 {
        seq![digit_char(n as int)]
    } else {
        digits(n / 10).push(digit_char((n % 10) as int))
    }
}

/// The number `n` written in decimal, with a minus sign if it is negative.
pub open spec fn decimal(n: int) -> Seq<char> {
    if n < 0 {
        seq!['-'] + digits((-n) as nat)
    } else {
        digits(n as nat)
    }
}

/// The letter of the file `col`: a to h for the columns of the board, and a
/// question mark for any other.
pub open spec fn file_letter(col: int) -> char {
    if 0 <= col <= 7 {
        ('a' as int + col) as char
    } else {
        '?'
    }
}

fn exec_is_white_space(c: char) -> (r: bool)
    ensures
        r == is_white_space(c),
{
    ('\u{9}' <= c && c <= '\u{d}') || c == ' ' || c == '\u{85}' || c == '\u{a0}' || c
        == '\u{1680}' || ('\u{2000}' <= c && c <= '\u{200a}') || c == '\u{2028}' || c
        == '\u{2029}' || c == '\u{202f}' || c == '\u{205f}' || c == '\u{3000}'
}

fn exec_file_of(c: char) -> (r: Option<i32>)
    ensures
        r == file_of(c),
{
    match c {
        'a' | 'A' => Some(0),
        'b' | 'B' => Some(1),
        'c' | 'C' => Some(2),
        'd' | 'D' => Some(3),
        'e' | 'E' => Some(4),
        'f' | 'F' => Some(5),
        'g' | 'G' => Some(6),
        'h' | 'H' => Some(7),
        _ => None,
    }
}

fn exec_digit_of(c: char) -> (r: Option<i32>)
    ensures
        r == digit_of(c),
{
    match c {
        '0' => Some(0),
        '1' => Some(1),
        '2' => Some(2),
        '3' => Some(3),
        '4' => Some(4),
        '5' => Some(5),
        '6' => Some(6),
        '7' => Some(7),
        '8' => Some(8),
        '9' => Some(9),
        _ => None,
    }
}

fn digit_str(d: u64) -> (r: &'static str)
    requires
        d < 10,
    ensures
        r@ == seq![digit_char(d as int)],
{
    proof {
        reveal_strlit("0");
        reveal_strlit("1");
        reveal_strlit("2");
        reveal_strlit("3");
        reveal_strlit("4");
        reveal_strlit("5");
        reveal_strlit("6");
        reveal_strlit("7");
        reveal_strlit("8");
        reveal_strlit("9");
    }
    let r = if d == 0 {
        "0"
    } else if d == 1 {
        "1"
    } else if d == 2 {
        "2"
    } else if d == 3 {
        "3"
    } else if d == 4 {
        "4"
    } else if d == 5 {
        "5"
    } else if d == 6 {
        "6"
    } else if d == 7 {
        "7"
    } else if d == 8 {
        "8"
    } else {
        "9"
    };
    assert(r@ =~= seq![digit_char(d as int)]);
    r
}

fn file_str(col: i32) -> (r: &'static str)
    ensures
        r@ == seq![file_letter(col as int)],
{
    proof {
        reveal_strlit("a");
        reveal_strlit("b");
        reveal_strlit("c");
        reveal_strlit("d");
        reveal_strlit("e");
        reveal_strlit("f");
        reveal_strlit("g");
        reveal_strlit("h");
        reveal_strlit("?");
    }
    let r = if col == 0 {
        "a"
    } else if col == 1 {
        "b"
    } else if col == 2 {
        "c"
    } else if col == 3 {
        "d"
    } else if col == 4 {
        "e"
    } else if col == 5 {
        "f"
    } else if col == 6 {
        "g"
    } else if col == 7 {
        "h"
    } else {
        "?"
    };
    assert(r@ =~= seq![file_letter(col as int)]);
    r
}

/// `out` followed by the decimal digits of `n`.
fn push_digits(out: String, n: u64) -> (r: String)
    ensures
        r@ == out@ + digits(n as nat),
    decreases n,
{
    if n >= 10 {
        let r = push_digits(out, n / 10).concat(digit_str(n % 10));
        assert(r@ =~= out@ + digits(n as nat));
        r
    } else {
        out.concat(digit_str(n))
    }
}

/// A square of the board, or a place beside it.
///
/// `row` 0 is White's back rank (rank 1) and `col` 0 is the a-file.
#[derive(Clone, Copy, Debug, PartialEq, Eq, Structural, PartialOrd, Ord, Hash)]
pub struct Position {
    pub row: i32,
    pub col: i32,
}

impl Position {
    pub fn new(row: i32, col: i32) -> (r: Position)
        ensures
            r == (Position { row, col }),
    {
        Position { row, col }
    }

    /// The square on which the king of `color` starts.
    pub open spec fn spec_king_pos(color: Color) -> Position {
        match color {
            Color::White => Position { row: 0, col: 4 },
            Color::Black => Position { row: 7, col: 4 },
        }
    }

    #[verifier::when_used_as_spec(spec_king_pos)]
    pub fn king_pos(color: Color) -> (r: Position)
        ensures
            r == Self::spec_king_pos(color),
    {
        match color {
            Color::White => Position { row: 0, col: 4 },
            Color::Black => Position { row: 7, col: 4 },
        }
    }

    /// The square on which the queen of `color` starts.
    pub open spec fn spec_queen_pos(color: Color) -> Position {
        match color {
            Color::White => Position { row: 0, col: 3 },
            Color::Black => Position { row: 7, col: 3 },
        }
    }

    #[verifier::when_used_as_spec(spec_queen_pos)]
    pub fn queen_pos(color: Color) -> (r: Position)
        ensures
            r == Self::spec_queen_pos(color),
    {
        match color {
            Color::White => Position { row: 0, col: 3 },
            Color::Black => Position { row: 7, col: 3 },
        }
    }

    /// The position that the label `s` names: after leading white space, a
    /// file letter from a to h in either case and a decimal digit, of which
    /// the digit 1 names the first rank. What follows the digit is not
    /// read. The digits 0 and 9 are taken as they are and name rows beside
    /// the board. `None` where the two characters are missing or are not a
    /// file letter and a digit.
    pub open spec fn spec_pgn(s: Seq<char>) -> Option<Position> {
        let start = leading_white_space(s);
        if s.len() < start + 2 {
            None
        } else {
            match (digit_of(s[start + 1]), file_of(s[start])) {
                (Some(rank), Some(col)) => Some(Position { row: (rank - 1) as i32, col }),
                _ => None,
            }
        }
    }

    /// What is wrong with a label that names no position: the file letter,
    /// where the label holds two characters of which the second is a digit;
    /// else the label as a whole.
    pub open spec fn spec_pgn_error(s: Seq<char>) -> Seq<char> {
        let start = leading_white_space(s);
        if s.len() >= start + 2 && digit_of(s[start + 1]) is Some {
            "invalid column character in pgn"@
        } else {
            "invalid pgn"@
        }
    }

    /// Reads a position from its label, such as `e4` or `D8`.
    pub fn pgn(s: &str) -> (r: Result<Position, String>)
        ensures
            match Self::spec_pgn(s@) {
                Some(position) => r == Ok::<Position, String>(position),
                None => r is Err && r->Err_0@ == Self::spec_pgn_error(s@),
            },
    {
        let n = s.unicode_len();
        let mut start: usize = 0;
        assert(s@.skip(0) =~= s@);
        while start < n && exec_is_white_space(s.get_char(start))
            invariant
                0 <= start <= n,
                n == s@.len(),
                leading_white_space(s@) == start + leading_white_space(s@.skip(start as int)),
            decreases n - start,
        {
            proof {
                assert(s@.skip(start as int).drop_first() =~= s@.skip(start + 1));
            }
            start = start + 1;
        }
        assert(leading_white_space(s@) == start) by {
            if start < n {
                assert(s@.skip(start as int)[0] == s@[start as int]);
            }
        }
        if n - start < 2 {
            return Err("invalid pgn".to_owned());
        }
        let rank = match exec_digit_of(s.get_char(start + 1)) {
            Some(rank) => rank,
            None => {
                return Err("invalid pgn".to_owned());
            },
        };
        match exec_file_of(s.get_char(start)) {
            Some(col) => Ok(Position::new(rank - 1, col)),
            None => Err("invalid column character in pgn".to_owned()),
        }
    }

    /// The label of the position: the letter of its file, a question mark
    /// for a column beside the board, and the number of its rank.
    pub open spec fn spec_label(&self) -> Seq<char> {
        seq![file_letter(self.col as int)] + decimal(self.row + 1)
    }

    /// The label of the position, such as `e4`.
    pub fn label(&self) -> (r: String)
        ensures
            r@ == self.spec_label(),
    {
        let rank: i64 = self.row as i64 + 1;
        let file = file_str(self.col).to_owned();
        if rank < 0 {
            proof {
                reveal_strlit("-");
            }
            let r = push_digits(file.concat("-"), (-rank) as u64);
            assert(r@ =~= self.spec_label());
            r
        } else {
            push_digits(file, rank as u64)
        }
    }

    pub open spec fn spec_is_off_board(&self) -> bool {
        self.row < 0 || self.row > 7 || self.col < 0 || self.col > 7
    }

    /// Is this position beside the board?
    #[verifier::when_used_as_spec(spec_is_off_board)]
    pub fn is_off_board(&self) -> (r: bool)
        ensures
            r == self.spec_is_off_board(),
    {
        self.row < 0 || self.row > 7 || self.col < 0 || self.col > 7
    }

    pub open spec fn spec_is_on_board(&self) -> bool {
        0 <= self.row <= 7 && 0 <= self.col <= 7
    }

    /// Is this position one of the 64 squares?
    #[verifier::when_used_as_spec(spec_is_on_board)]
    pub fn is_on_board(&self) -> (r: bool)
        ensures
            r == self.spec_is_on_board(),
            r == !self.spec_is_off_board(),
    {
        !self.is_off_board()
    }

    pub open spec fn spec_get_row(&self) -> i32 {
        self.row
    }

    #[verifier::when_used_as_spec(spec_get_row)]
    pub fn get_row(&self) -> (r: i32)
        ensures
            r == self.row,
    {
        self.row
    }

    pub open spec fn spec_get_col(&self) -> i32 {
        self.col
    }

    #[verifier::when_used_as_spec(spec_get_col)]
    pub fn get_col(&self) -> (r: i32)
        ensures
            r == self.col,
    {
        self.col
    }

    /// The position `drow` rows up and `dcol` columns to the right, where it
    /// is representable.
    pub open spec fn offset(&self, drow: int, dcol: int) -> Position {
        Position { row: (self.row + drow) as i32, col: (self.col + dcol) as i32 }
    }

    pub open spec fn spec_is_diagonal_to(&self, other: Position) -> bool {
        gap(self.col as int, other.col as int) == gap(self.row as int, other.row as int)
    }

    /// Do the two positions lie on a common diagonal? A position is diagonal
    /// to itself.
    #[verifier::when_used_as_spec(spec_is_diagonal_to)]
    pub fn is_diagonal_to(&self, other: Position) -> (r: bool)
        ensures
            r == self.spec_is_diagonal_to(other),
    {
        exec_gap(self.col, other.col) == exec_gap(self.row, other.row)
    }

    pub open spec fn spec_is_orthogonal_to(&self, other: Position) -> bool {
        self.col == other.col || self.row == other.row
    }

    /// Do the two positions share a row or a column?
    #[verifier::when_used_as_spec(spec_is_orthogonal_to)]
    pub fn is_orthogonal_to(&self, other: Position) -> (r: bool)
        ensures
            r == self.spec_is_orthogonal_to(other),
    {
        self.col == other.col || self.row == other.row
    }

    /// The number of king steps between the two positions.
    pub open spec fn distance(&self, other: Position) -> int {
        let dr = gap(self.row as int, other.row as int);
        let dc = gap(self.col as int, other.col as int);
        if dr >= dc {
            dr
        } else {
            dc
        }
    }

    pub(crate) fn exec_distance(&self, other: Position) -> (r: i64)
        ensures
            r == self.distance(other),
            0 <= r <= 0xffff_ffff,
    {
        let dr = exec_gap(self.row, other.row);
        let dc = exec_gap(self.col, other.col);
        if dr >= dc {
            dr
        } else {
            dc
        }
    }

    pub open spec fn spec_is_adjacent_to(&self, other: Position) -> bool {
        self.distance(other) == 1
    }

    /// Is `other` one of the eight neighbours of this position?
    #[verifier::when_used_as_spec(spec_is_adjacent_to)]
    pub fn is_adjacent_to(&self, other: Position) -> (r: bool)
        ensures
            r == self.spec_is_adjacent_to(other),
    {
        self.exec_distance(other) == 1
    }

    pub open spec fn spec_is_knight_move(&self, other: Position) -> bool {
        let dr = gap(self.row as int, other.row as int);
        let dc = gap(self.col as int, other.col as int);
        (dr == 2 && dc == 1) || (dr == 1 && dc == 2)
    }

    /// Is `other` a knight's jump away?
    #[verifier::when_used_as_spec(spec_is_knight_move)]
    pub fn is_knight_move(&self, other: Position) -> (r: bool)
        ensures
            r == self.spec_is_knight_move(other),
    {
        let dr = exec_gap(self.row, other.row);
        let dc = exec_gap(self.col, other.col);
        (dr == 2 && dc == 1) || (dr == 1 && dc == 2)
    }

    /// Is this position on a lower rank than `other`?
    pub fn is_below(&self, other: Position) -> (r: bool)
        ensures
            r == (self.row < other.row),
    {
        self.row < other.row
    }

    /// Is this position on a higher rank than `other`?
    pub fn is_above(&self, other: Position) -> (r: bool)
        ensures
            r == (self.row > other.row),
    {
        self.row > other.row
    }

    /// Is this position on a file nearer the a-file than `other`?
    pub fn is_left_of(&self, other: Position) -> (r: bool)
        ensures
            r == (self.col < other.col),
    {
        self.col < other.col
    }

    /// Is this position on a file nearer the h-file than `other`?
    pub fn is_right_of(&self, other: Position) -> (r: bool)
        ensures
            r == (self.col > other.col),
    {
        self.col > other.col
    }

    /// The position one rank down. Not checked against the board's edge.
    pub fn next_below(&self) -> (r: Position)
        requires
            self.row > i32::MIN,
        ensures
            r == self.offset(-1, 0),
    {
        Position { row: self.row - 1, col: self.col }
    }

    /// The position one rank up. Not checked against the board's edge.
    pub fn next_above(&self) -> (r: Position)
        requires
            self.row < i32::MAX,
        ensures
            r == self.offset(1, 0),
    {
        Position { row: self.row + 1, col: self.col }
    }

    /// The position one file to the left. Not checked against the board's
    /// edge.
    pub fn next_left(&self) -> (r: Position)
        requires
            self.col > i32::MIN,
        ensures
            r == self.offset(0, -1),
    {
        Position { row: self.row, col: self.col - 1 }
    }

    /// The position one file to the right. Not checked against the board's
    /// edge.
    pub fn next_right(&self) -> (r: Position)
        requires
            self.col < i32::MAX,
        ensures
            r == self.offset(0, 1),
    {
        Position { row: self.row, col: self.col + 1 }
    }

    /// The position one step ahead for a pawn of `ally_color`. Not checked
    /// against the board's edge.
    pub fn pawn_up(&self, ally_color: Color) -> (r: Position)
        requires
            i32::MIN < self.row < i32::MAX,
        ensures
            r == self.offset(ally_color.forward(), 0),
    {
        match ally_color {
            Color::White => self.next_above(),
            Color::Black => self.next_below(),
        }
    }

    /// The position one step behind for a pawn of `ally_color`. Not checked
    /// against the board's edge.
    pub fn pawn_back(&self, ally_color: Color) -> (r: Position)
        requires
            i32::MIN < self.row < i32::MAX,
        ensures
            r == self.offset(-ally_color.forward(), 0),
    {
        self.pawn_up(ally_color.not())
    }

    pub open spec fn spec_is_starting_pawn(&self, color: Color) -> bool {
        match color {
            Color::White => self.row == 1,
            Color::Black => self.row == 6,
        }
    }

    /// Is this position on the rank from which pawns of `color` start?
    #[verifier::when_used_as_spec(spec_is_starting_pawn)]
    pub fn is_starting_pawn(&self, color: Color) -> (r: bool)
        ensures
            r == self.spec_is_starting_pawn(color),
    {
        match color {
            Color::White => self.row == 1,
            Color::Black => self.row == 6,
        }
    }

    pub open spec fn spec_is_kingside_rook(&self) -> bool {
        (self.row == 0 || self.row == 7) && self.col == 7
    }

    /// Is this the home square of a kingside rook, of either side?
    #[verifier::when_used_as_spec(spec_is_kingside_rook)]
    pub fn is_kingside_rook(&self) -> (r: bool)
        ensures
            r == self.spec_is_kingside_rook(),
    {
        (self.row == 0 || self.row == 7) && self.col == 7
    }

    pub open spec fn spec_is_queenside_rook(&self) -> bool {
        (self.row == 0 || self.row == 7) && self.col == 0
    }

    /// Is this the home square of a queenside rook, of either side?
    #[verifier::when_used_as_spec(spec_is_queenside_rook)]
    pub fn is_queenside_rook(&self) -> (r: bool)
        ensures
            r == self.spec_is_queenside_rook(),
    {
        (self.row == 0 || self.row == 7) && self.col == 0
    }

    /// The position `k` steps from this one along the line to `to`.
    pub open spec fn step_toward(&self, to: Position, k: int) -> Position {
        Position {
            row: toward(self.row as int, to.row as int, k) as i32,
            col: toward(self.col as int, to.col as int, k) as i32,
        }
    }

    /// The squares passed on the way to an aligned position `to`, this one
    /// left out and `to` included.
    pub open spec fn line_to(&self, to: Position) -> Seq<Position> {
        Seq::new(self.distance(to) as nat, |i: int| self.step_toward(to, i + 1))
    }

    pub(crate) fn exec_step_toward(&self, to: Position, k: i64) -> (r: Position)
        requires
            0 <= k <= self.distance(to),
            self.spec_is_diagonal_to(to) || self.spec_is_orthogonal_to(to),
        ensures
            r == self.step_toward(to, k as int),
    {
        let row: i64 = if to.row > self.row {
            self.row as i64 + k
        } else if to.row < self.row {
            self.row as i64 - k
        } else {
            self.row as i64
        };
        let col: i64 = if to.col > self.col {
            self.col as i64 + k
        } else if to.col < self.col {
            self.col as i64 - k
        } else {
            self.col as i64
        };
        Position { row: row as i32, col: col as i32 }
    }

    fn exec_line_to(&self, to: Position) -> (r: Vec<Position>)
        requires
            self.spec_is_diagonal_to(to) || self.spec_is_orthogonal_to(to),
        ensures
            r@ == self.line_to(to),
    {
        let n = self.exec_distance(to);
        let mut result: Vec<Position> = Vec::new();
        let mut k: i64 = 0;
        while k < n
            invariant
                0 <= k <= n,
                n == self.distance(to),
                self.spec_is_diagonal_to(to) || self.spec_is_orthogonal_to(to),
                result@ == Seq::new(k as nat, |i: int| self.step_toward(to, i + 1)),
            decreases n - k,
        {
            k = k + 1;
            result.push(self.exec_step_toward(to, k));
        }
        result
    }

    pub open spec fn spec_diagonals_to(&self, to: Position) -> Seq<Position> {
        if self.spec_is_diagonal_to(to) {
            self.line_to(to)
        } else {
            Seq::empty()
        }
    }

    /// The squares from this position to `to` along a diagonal, this one left
    /// out and `to` included; empty when the two share no diagonal.
    pub fn diagonals_to(&self, to: Position) -> (r: Vec<Position>)
        ensures
            r@ == self.spec_diagonals_to(to),
    {
        if !self.is_diagonal_to(to) {
            return Vec::new();
        }
        self.exec_line_to(to)
    }

    pub open spec fn spec_orthogonals_to(&self, to: Position) -> Seq<Position> {
        if self.spec_is_orthogonal_to(to) {
            self.line_to(to)
        } else {
            Seq::empty()
        }
    }

    /// The squares from this position to `to` along a row or a column, this
    /// one left out and `to` included; empty when the two share neither.
    pub fn orthogonals_to(&self, to: Position) -> (r: Vec<Position>)
        ensures
            r@ == self.spec_orthogonals_to(to),
    {
        if !self.is_orthogonal_to(to) {
            return Vec::new();
        }
        self.exec_line_to(to)
    }
}

/// A piece: its kind, its side and the square it stands on.
#[derive(Clone, Copy, Debug, PartialEq, Eq, Structural, PartialOrd, Ord, Hash)]
pub enum Piece {
    King(Color, Position),
    Queen(Color, Position),
    Rook(Color, Position),
    Bishop(Color, Position),
    Knight(Color, Position),
    Pawn(Color, Position),
}

fn str_eq(a: &str, b: &str) -> (r: bool)
    ensures
        r == (a@ == b@),
{
    a.to_owned() == b.to_owned()
}

impl Piece {
    /// The piece that `name` denotes, as a Black piece beside the board at
    /// `(-1, -1)`: its side and square are for the caller to set. `None` for
    /// anything but the six lower-case English names.
    pub open spec fn spec_from_name(name: Seq<char>) -> Option<Piece> {
        let color = Color::Black;
        let position = Position { row: -1i32, col: -1i32 };
        if name == "king"@ {
            Some(Piece::King(color, position))
        } else if name == "queen"@ {
            Some(Piece::Queen(color, position))
        } else if name == "rook"@ {
            Some(Piece::Rook(color, position))
        } else if name == "bishop"@ {
            Some(Piece::Bishop(color, position))
        } else if name == "knight"@ {
            Some(Piece::Knight(color, position))
        } else if name == "pawn"@ {
            Some(Piece::Pawn(color, position))
        } else {
            None
        }
    }

    pub open spec fn spec_get_name(&self) -> Seq<char> {
        match self {
            Piece::King(_, _) => "king"@,
            Piece::Queen(_, _) => "queen"@,
            Piece::Rook(_, _) => "rook"@,
            Piece::Bishop(_, _) => "bishop"@,
            Piece::Knight(_, _) => "knight"@,
            Piece::Pawn(_, _) => "pawn"@,
        }
    }

    /// The lower-case English name of the piece's kind.
    pub fn get_name(&self) -> (r: &'static str)
        ensures
            r@ == self.spec_get_name(),
    {
        match self {
            Piece::King(_, _) => "king",
            Piece::Queen(_, _) => "queen",
            Piece::Rook(_, _) => "rook",
            Piece::Bishop(_, _) => "bishop",
            Piece::Knight(_, _) => "knight",
            Piece::Pawn(_, _) => "pawn",
        }
    }

    /// The letter by which the piece's kind is written: K, Q, R, B, N or P.
    pub fn get_type(&self) -> (r: &'static str)
        ensures
            r@ == (match *self {
                Piece::King(_, _) => "K"@,
                Piece::Queen(_, _) => "Q"@,
                Piece::Rook(_, _) => "R"@,
                Piece::Bishop(_, _) => "B"@,
                Piece::Knight(_, _) => "N"@,
                Piece::Pawn(_, _) => "P"@,
            }),
    {
        match self {
            Piece::King(_, _) => "K",
            Piece::Queen(_, _) => "Q",
            Piece::Rook(_, _) => "R",
            Piece::Bishop(_, _) => "B",
            Piece::Knight(_, _) => "N",
            Piece::Pawn(_, _) => "P",
        }
    }

    pub open spec fn spec_get_material_value(&self) -> i32 {
        match self {
            Piece::King(_, _) => 9999,
            Piece::Queen(_, _) => 9,
            Piece::Rook(_, _) => 5,
            Piece::Bishop(_, _) => 3,
            Piece::Knight(_, _) => 3,
            Piece::Pawn(_, _) => 1,
        }
    }

    /// The material value of the piece's kind, in points.
    #[verifier::when_used_as_spec(spec_get_material_value)]
    pub fn get_material_value(&self) -> (r: i32)
        ensures
            r == self.spec_get_material_value(),
    {
        match self {
            Piece::King(_, _) => 9999,
            Piece::Queen(_, _) => 9,
            Piece::Rook(_, _) => 5,
            Piece::Bishop(_, _) => 3,
            Piece::Knight(_, _) => 3,
            Piece::Pawn(_, _) => 1,
        }
    }

    /// The table of positional bonuses for the piece's kind and side.
    pub open spec fn position_weights(&self) -> [[i32; 8]; 8] {
        match self {
            Piece::King(c, _) => match c {
                Color::White => WHITE_KING_POSITION_WEIGHTS,
                Color::Black => BLACK_KING_POSITION_WEIGHTS,
            },
            Piece::Queen(c, _) => match c {
                Color::White => WHITE_QUEEN_POSITION_WEIGHTS,
                Color::Black => BLACK_QUEEN_POSITION_WEIGHTS,
            },
            Piece::Rook(c, _) => match c {
                Color::White => WHITE_ROOK_POSITION_WEIGHTS,
                Color::Black => BLACK_ROOK_POSITION_WEIGHTS,
            },
            Piece::Bishop(c, _) => match c {
                Color::White => WHITE_BISHOP_POSITION_WEIGHTS,
                Color::Black => BLACK_BISHOP_POSITION_WEIGHTS,
            },
            Piece::Knight(c, _) => match c {
                Color::White => WHITE_KNIGHT_POSITION_WEIGHTS,
                Color::Black => BLACK_KNIGHT_POSITION_WEIGHTS,
            },
            Piece::Pawn(c, _) => match c {
                Color::White => WHITE_PAWN_POSITION_WEIGHTS,
                Color::Black => BLACK_PAWN_POSITION_WEIGHTS,
            },
        }
    }

    /// The weighted value of the piece in half points: twenty times its
    /// material value (ten times, in points) plus the bonus that its table
    /// gives for the square it stands on.
    pub open spec fn spec_get_weighted_value(&self) -> int {
        let pos = self.spec_get_pos();
        self.position_weights()[7 - pos.row][pos.col as int] + 20 * self.spec_get_material_value()
    }

    /// The weighted value of a piece on the board, in half points: a knight
    /// worth 31.5 points gives 63.
    pub fn get_weighted_value(&self) -> (r: i32)
        requires
            self.spec_get_pos().spec_is_on_board(),
        ensures
            r == self.spec_get_weighted_value(),
            0 < r <= 199990,
    {
        let pos = self.get_pos();
        let row: usize = (7 - pos.row) as usize;
        let col: usize = pos.col as usize;
        let bonus: i32 = match self {
            Piece::King(c, _) => match c {
                Color::White => WHITE_KING_POSITION_WEIGHTS[row][col],
                Color::Black => BLACK_KING_POSITION_WEIGHTS[row][col],
            },
            Piece::Queen(c, _) => match c {
                Color::White => WHITE_QUEEN_POSITION_WEIGHTS[row][col],
                Color::Black => BLACK_QUEEN_POSITION_WEIGHTS[row][col],
            },
            Piece::Rook(c, _) => match c {
                Color::White => WHITE_ROOK_POSITION_WEIGHTS[row][col],
                Color::Black => BLACK_ROOK_POSITION_WEIGHTS[row][col],
            },
            Piece::Bishop(c, _) => match c {
                Color::White => WHITE_BISHOP_POSITION_WEIGHTS[row][col],
                Color::Black => BLACK_BISHOP_POSITION_WEIGHTS[row][col],
            },
            Piece::Knight(c, _) => match c {
                Color::White => WHITE_KNIGHT_POSITION_WEIGHTS[row][col],
                Color::Black => BLACK_KNIGHT_POSITION_WEIGHTS[row][col],
            },
            Piece::Pawn(c, _) => match c {
                Color::White => WHITE_PAWN_POSITION_WEIGHTS[row][col],
                Color::Black => BLACK_PAWN_POSITION_WEIGHTS[row][col],
            },
        };
        bonus + 20 * self.get_material_value()
    }

    pub open spec fn spec_get_color(&self) -> Color {
        match self {
            Piece::King(c, _)
            | Piece::Queen(c, _)
            | Piece::Rook(c, _)
            | Piece::Bishop(c, _)
            | Piece::Knight(c, _)
            | Piece::Pawn(c, _) => *c,
        }
    }

    #[verifier::when_used_as_spec(spec_get_color)]
    pub fn get_color(&self) -> (r: Color)
        ensures
            r == self.spec_get_color(),
    {
        match self {
            Piece::King(c, _)
            | Piece::Queen(c, _)
            | Piece::Rook(c, _)
            | Piece::Bishop(c, _)
            | Piece::Knight(c, _)
            | Piece::Pawn(c, _) => *c,
        }
    }

    pub open spec fn spec_with_color(&self, color: Color) -> Piece {
        match *self {
            Piece::King(_, pos) => Piece::King(color, pos),
            Piece::Queen(_, pos) => Piece::Queen(color, pos),
            Piece::Rook(_, pos) => Piece::Rook(color, pos),
            Piece::Bishop(_, pos) => Piece::Bishop(color, pos),
            Piece::Knight(_, pos) => Piece::Knight(color, pos),
            Piece::Pawn(_, pos) => Piece::Pawn(color, pos),
        }
    }

    /// The same kind of piece on the same square, for the side `color`.
    #[verifier::when_used_as_spec(spec_with_color)]
    pub fn with_color(&self, color: Color) -> (r: Piece)
        ensures
            r == self.spec_with_color(color),
    {
        match *self {
            Piece::King(_, pos) => Piece::King(color, pos),
            Piece::Queen(_, pos) => Piece::Queen(color, pos),
            Piece::Rook(_, pos) => Piece::Rook(color, pos),
            Piece::Bishop(_, pos) => Piece::Bishop(color, pos),
            Piece::Knight(_, pos) => Piece::Knight(color, pos),
            Piece::Pawn(_, pos) => Piece::Pawn(color, pos),
        }
    }

    pub open spec fn spec_get_pos(&self) -> Position {
        match self {
            Piece::King(_, p)
            | Piece::Queen(_, p)
            | Piece::Rook(_, p)
            | Piece::Bishop(_, p)
            | Piece::Knight(_, p)
            | Piece::Pawn(_, p) => *p,
        }
    }

    #[verifier::when_used_as_spec(spec_get_pos)]
    pub fn get_pos(&self) -> (r: Position)
        ensures
            r == self.spec_get_pos(),
    {
        match self {
            Piece::King(_, p)
            | Piece::Queen(_, p)
            | Piece::Rook(_, p)
            | Piece::Bishop(_, p)
            | Piece::Knight(_, p)
            | Piece::Pawn(_, p) => *p,
        }
    }

    pub open spec fn spec_is_king(&self) -> bool {
        *self is King
    }

    #[verifier::when_used_as_spec(spec_is_king)]
    pub fn is_king(&self) -> (r: bool)
        ensures
            r == (*self is King),
    {
        matches!(self, Piece::King(_, _))
    }

    pub open spec fn spec_is_queen(&self) -> bool {
        *self is Queen
    }

    #[verifier::when_used_as_spec(spec_is_queen)]
    pub fn is_queen(&self) -> (r: bool)
        ensures
            r == (*self is Queen),
    {
        matches!(self, Piece::Queen(_, _))
    }

    pub open spec fn spec_is_rook(&self) -> bool {
        *self is Rook
    }

    #[verifier::when_used_as_spec(spec_is_rook)]
    pub fn is_rook(&self) -> (r: bool)
        ensures
            r == (*self is Rook),
    {
        matches!(self, Piece::Rook(_, _))
    }

    pub open spec fn spec_is_bishop(&self) -> bool {
        *self is Bishop
    }

    #[verifier::when_used_as_spec(spec_is_bishop)]
    pub fn is_bishop(&self) -> (r: bool)
        ensures
            r == (*self is Bishop),
    {
        matches!(self, Piece::Bishop(_, _))
    }

    pub open spec fn spec_is_knight(&self) -> bool {
        *self is Knight
    }

    #[verifier::when_used_as_spec(spec_is_knight)]
    pub fn is_knight(&self) -> (r: bool)
        ensures
            r == (*self is Knight),
    {
        matches!(self, Piece::Knight(_, _))
    }

    pub open spec fn spec_is_pawn(&self) -> bool {
        *self is Pawn
    }

    #[verifier::when_used_as_spec(spec_is_pawn)]
    pub fn is_pawn(&self) -> (r: bool)
        ensures
            r == (*self is Pawn),
    {
        matches!(self, Piece::Pawn(_, _))
    }

    /// Do the two pieces have the same kind, whatever their side and square?
    pub open spec fn same_kind(&self, other: Piece) -> bool {
        &&& (*self is King) == (other is King)
        &&& (*self is Queen) == (other is Queen)
        &&& (*self is Rook) == (other is Rook)
        &&& (*self is Bishop) == (other is Bishop)
        &&& (*self is Knight) == (other is Knight)
        &&& (*self is Pawn) == (other is Pawn)
    }

    pub open spec fn spec_is_starting_pawn(&self) -> bool {
        *self matches Piece::Pawn(c, pos) && pos.spec_is_starting_pawn(c)
    }

    /// Is this a pawn that still stands on its starting rank?
    #[verifier::when_used_as_spec(spec_is_starting_pawn)]
    pub fn is_starting_pawn(&self) -> (r: bool)
        ensures
            r == self.spec_is_starting_pawn(),
    {
        if let Piece::Pawn(c, pos) = self {
            pos.is_starting_pawn(*c)
        } else {
            false
        }
    }

    pub open spec fn spec_is_queenside_rook(&self) -> bool {
        *self matches Piece::Rook(_, pos) && pos.spec_is_queenside_rook()
    }

    /// Is this a rook on the home square of a queenside rook?
    #[verifier::when_used_as_spec(spec_is_queenside_rook)]
    pub fn is_queenside_rook(&self) -> (r: bool)
        ensures
            r == self.spec_is_queenside_rook(),
    {
        if let Piece::Rook(_, pos) = self {
            pos.is_queenside_rook()
        } else {
            false
        }
    }

    pub open spec fn spec_is_kingside_rook(&self) -> bool {
        *self matches Piece::Rook(_, pos) && pos.spec_is_kingside_rook()
    }

    /// Is this a rook on the home square of a kingside rook?
    #[verifier::when_used_as_spec(spec_is_kingside_rook)]
    pub fn is_kingside_rook(&self) -> (r: bool)
        ensures
            r == self.spec_is_kingside_rook(),
    {
        if let Piece::Rook(_, pos) = self {
            pos.is_kingside_rook()
        } else {
            false
        }
    }

    pub open spec fn spec_move_to(&self, new_pos: Position) -> Piece {
        match *self {
            Piece::King(c, _) => Piece::King(c, new_pos),
            Piece::Queen(c, _) => Piece::Queen(c, new_pos),
            Piece::Rook(c, _) => Piece::Rook(c, new_pos),
            Piece::Bishop(c, _) => Piece::Bishop(c, new_pos),
            Piece::Knight(c, _) => Piece::Knight(c, new_pos),
            Piece::Pawn(c, _) => Piece::Pawn(c, new_pos),
        }
    }

    /// The same piece standing on `new_pos`. No rule of movement is checked.
    #[verifier::when_used_as_spec(spec_move_to)]
    pub fn move_to(&self, new_pos: Position) -> (r: Piece)
        ensures
            r == self.spec_move_to(new_pos),
    {
        match *self {
            Piece::King(c, _) => Piece::King(c, new_pos),
            Piece::Queen(c, _) => Piece::Queen(c, new_pos),
            Piece::Rook(c, _) => Piece::Rook(c, new_pos),
            Piece::Bishop(c, _) => Piece::Bishop(c, new_pos),
            Piece::Knight(c, _) => Piece::Knight(c, new_pos),
            Piece::Pawn(c, _) => Piece::Pawn(c, new_pos),
        }
    }
}

impl TryFrom<&str> for Piece {
    type Error = String;

    /// Reads a piece from the lower-case English name of its kind.
    fn try_from(name: &str) -> (r: Result<Piece, String>)
        ensures
            match Piece::spec_from_name(name@) {
                Some(piece) => r == Ok::<Piece, String>(piece),
                None => r is Err && r->Err_0@ == "invalid piece name"@,
            },
    {
        let color = Color::Black;
        let position = Position::new(-1, -1);
        if str_eq(name, "king") {
            Ok(Piece::King(color, position))
        } else if str_eq(name, "queen") {
            Ok(Piece::Queen(color, position))
        } else if str_eq(name, "rook") {
            Ok(Piece::Rook(color, position))
        } else if str_eq(name, "bishop") {
            Ok(Piece::Bishop(color, position))
        } else if str_eq(name, "knight") {
            Ok(Piece::Knight(color, position))
        } else if str_eq(name, "pawn") {
            Ok(Piece::Pawn(color, position))
        } else {
            Err("invalid piece name".to_owned())
        }
    }
}

impl vstd::std_specs::convert::TryFromSpecImpl<&str> for Piece {
    open spec fn obeys_try_from_spec() -> bool {
        false
    }

    open spec fn try_from_spec(name: &str) -> Result<Piece, String> {
        match Piece::spec_from_name(name@) {
            Some(piece) => Ok(piece),
            None => Err(arbitrary()),
        }
    }
}

} // verus!
