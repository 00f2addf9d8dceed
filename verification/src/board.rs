//! The board: 64 squares, the en-passant target, the castling rights and the
//! side to move.
//!
//! A [`Board`] is a value: every transition returns a new board and leaves
//! the old one as it was. What a board stands for is its view, a
//! [`BoardView`]; the type's invariant is that the view is well formed.

use crate::model::BoardView;
use crate::piece::{Color, Piece, Position};
use core::ops::Not;
use vstd::prelude::*;

verus! {

/// One cell of the board.
#[derive(Clone, Copy, Debug, PartialEq, Eq, Structural, PartialOrd, Ord)]
pub struct Square {
    pub piece: Option<Piece>,
}

impl Square {
    pub fn get_piece(&self) -> (r: Option<Piece>)
        ensures
            r == self.piece,
    {
        self.piece
    }
}

impl Default for Square {
    /// The empty square.
    fn default() -> (r: Square)
        ensures
            r.piece is None,
    {
        Square { piece: None }
    }
}

impl From<Piece> for Square {
    fn from(piece: Piece) -> (r: Square) {
        Square { piece: Some(piece) }
    }
}

impl vstd::std_specs::convert::FromSpecImpl<Piece> for Square {
    open spec fn obeys_from_spec() -> bool {
        true
    }

    open spec fn from_spec(piece: Piece) -> Square {
        Square { piece: Some(piece) }
    }
}

/// What one side may still castle.
#[derive(Clone, Copy, Debug, PartialEq, Eq, Structural, PartialOrd, Ord)]
pub struct CastlingRights {
    pub kingside: bool,
    pub queenside: bool,
}

impl Default for CastlingRights {
    /// Both castlings allowed, as at the start of a game.
    fn default() -> (r: CastlingRights)
        ensures
            r == (CastlingRights { kingside: true, queenside: true }),
    {
        CastlingRights { kingside: true, queenside: true }
    }
}

impl CastlingRights {
    pub fn can_kingside_castle(&self) -> (r: bool)
        ensures
            r == self.kingside,
    {
        self.kingside
    }

    pub fn can_queenside_castle(&self) -> (r: bool)
        ensures
            r == self.queenside,
    {
        self.queenside
    }

    fn disable_kingside(&mut self)
        ensures
            *final(self) == (CastlingRights { kingside: false, ..*old(self) }),
    {
        self.kingside = false
    }

    fn disable_queenside(&mut self)
        ensures
            *final(self) == (CastlingRights { queenside: false, ..*old(self) }),
    {
        self.queenside = false
    }

    fn disable_all(&mut self)
        ensures
            *final(self) == (CastlingRights { kingside: false, queenside: false }),
    {
        self.disable_kingside();
        self.disable_queenside()
    }

    fn enable_kingside(&mut self)
        ensures
            *final(self) == (CastlingRights { kingside: true, ..*old(self) }),
    {
        self.kingside = true
    }

    fn enable_queenside(&mut self)
        ensures
            *final(self) == (CastlingRights { queenside: true, ..*old(self) }),
    {
        self.queenside = true
    }

    fn enable_all(&mut self)
        ensures
            *final(self) == (CastlingRights { kingside: true, queenside: true }),
    {
        self.enable_kingside();
        self.enable_queenside()
    }
}

/// The occupied squares among the 64 stored ones.
spec fn pieces_of(squares: Seq<Square>) -> Map<Position, Piece> {
    Map::new(
        |p: Position| p.is_on_board() && squares[BoardView::square_index(p)].piece is Some,
        |p: Position| squares[BoardView::square_index(p)].piece->0,
    )
}

/// Does each stored piece carry the position of the square that holds it?
spec fn squares_wf(squares: Seq<Square>) -> bool {
    forall|p: Position|
        p.is_on_board() && (#[trigger] squares[BoardView::square_index(p)]).piece is Some
            ==> squares[BoardView::square_index(p)].piece->0.get_pos() == p
}

/// The board value that the stored squares stand for, with nothing else set.
spec fn bare_view(squares: Seq<Square>) -> BoardView {
    BoardView {
        pieces: pieces_of(squares),
        en_passant: None,
        white_castling_rights: CastlingRights { kingside: true, queenside: true },
        black_castling_rights: CastlingRights { kingside: true, queenside: true },
        turn: Color::White,
    }
}

proof fn lemma_squares_wf(squares: Seq<Square>)
    requires
        squares.len() == 64,
    ensures
        squares_wf(squares) <==> bare_view(squares).wf(),
{
    let m = pieces_of(squares);
    if squares_wf(squares) {
        assert forall|p: Position| #[trigger] m.contains_key(p) implies p.is_on_board()
            && m[p].get_pos() == p by {
            assert(squares[BoardView::square_index(p)].piece is Some);
        }
        assert(bare_view(squares).wf());
    }
    if bare_view(squares).wf() {
        assert forall|p: Position|
            p.is_on_board() && (#[trigger] squares[BoardView::square_index(p)]).piece is Some
            implies squares[BoardView::square_index(p)].piece->0.get_pos() == p by {
            assert(m.contains_key(p));
            assert(bare_view(squares).pieces.contains_key(p));
            assert(m[p] == squares[BoardView::square_index(p)].piece->0);
        }
        assert(squares_wf(squares));
    }
}

/// The stored place `i` and the square `square_pos(i)` name each other.
pub proof fn lemma_square_pos(i: int)
    requires
        0 <= i < 64,
    ensures
        BoardView::square_pos(i).is_on_board(),
        BoardView::square_index(BoardView::square_pos(i)) == i,
{
}

/// Each square of the board is stored at one place.
pub proof fn lemma_square_index(pos: Position)
    requires
        pos.is_on_board(),
    ensures
        0 <= BoardView::square_index(pos) < 64,
        BoardView::square_pos(BoardView::square_index(pos)) == pos,
{
}

/// A position of the game. Its fields are private: boards are made by
/// [`Board::new`], [`Board::empty`] and [`BoardBuilder`], and every board made
/// is well formed.
#[derive(Clone, Copy, Debug, PartialEq, Eq, PartialOrd, Ord)]
pub struct Board {
    squares: [Square; 64],
    en_passant: Option<Position>,
    white_castling_rights: CastlingRights,
    black_castling_rights: CastlingRights,
    turn: Color,
}

impl View for Board {
    type V = BoardView;

    closed spec fn view(&self) -> BoardView {
        BoardView {
            pieces: pieces_of(self.squares@),
            en_passant: self.en_passant,
            white_castling_rights: self.white_castling_rights,
            black_castling_rights: self.black_castling_rights,
            turn: self.turn,
        }
    }
}

impl Board {
    /// Every board that the program holds is well formed.
    #[verifier::type_invariant]
    pub open spec fn inv(&self) -> bool {
        self.view().wf()
    }

    /// Two well-formed boards that stand for the same value are the same
    /// board: a contract that fixes the view of a board fixes the board.
    pub proof fn lemma_view_is_injective(a: Board, b: Board)
        requires
            a.inv(),
            b.inv(),
            a@ == b@,
        ensures
            a == b,
    {
        assert forall|i: int| 0 <= i < 64 implies a.squares@[i] == b.squares@[i] by {
            lemma_square_pos(i);
            let p = BoardView::square_pos(i);
            assert(a@.pieces.contains_key(p) == b@.pieces.contains_key(p));
            if a@.pieces.contains_key(p) {
                assert(a@.pieces[p] == b@.pieces[p]);
            }
        }
        assert(a.squares =~= b.squares);
    }

    /// A board without pieces: White to move, no en-passant target, every
    /// castling right set.
    pub fn empty() -> (r: Board)
        ensures
            r@ == BoardView::empty(),
    {
        let squares = [Square { piece: None };64];
        proof {
            lemma_squares_wf(squares@);
            assert(pieces_of(squares@) =~= Map::<Position, Piece>::empty());
        }
        Board {
            squares,
            en_passant: None,
            white_castling_rights: CastlingRights::default(),
            black_castling_rights: CastlingRights::default(),
            turn: Color::White,
        }
    }

    /// The number of squares.
    pub fn squares_num(&self) -> (r: usize)
        ensures
            r == 64,
    {
        64
    }

    pub fn get_turn_color(&self) -> (r: Color)
        ensures
            r == self@.turn,
    {
        self.turn
    }

    pub fn get_en_passant(&self) -> (r: Option<Position>)
        ensures
            r == self@.en_passant,
    {
        self.en_passant
    }

    pub fn get_castling_rights(&self, color: Color) -> (r: CastlingRights)
        ensures
            r == self@.castling_rights(color),
    {
        match color {
            Color::White => self.white_castling_rights,
            Color::Black => self.black_castling_rights,
        }
    }

    /// The same board with `color` to move.
    pub fn set_turn(&self, color: Color) -> (r: Board)
        ensures
            r@ == self@.with_turn(color),
    {
        proof {
            use_type_invariant(self);
        }
        Board {
            squares: self.squares,
            en_passant: self.en_passant,
            white_castling_rights: self.white_castling_rights,
            black_castling_rights: self.black_castling_rights,
            turn: color,
        }
    }

    /// The same board with the en-passant target `position`.
    pub(crate) fn with_en_passant(&self, position: Option<Position>) -> (r: Board)
        ensures
            r@ == (BoardView { en_passant: position, ..self@ }),
    {
        proof {
            use_type_invariant(self);
        }
        Board {
            squares: self.squares,
            en_passant: position,
            white_castling_rights: self.white_castling_rights,
            black_castling_rights: self.black_castling_rights,
            turn: self.turn,
        }
    }

    /// The same board with the castling rights `rights` for `color`.
    pub(crate) fn with_castling_rights(&self, color: Color, rights: CastlingRights) -> (r: Board)
        ensures
            r@ == self@.with_castling_rights(color, rights),
    {
        proof {
            use_type_invariant(self);
        }
        match color {
            Color::White => Board {
                squares: self.squares,
                en_passant: self.en_passant,
                white_castling_rights: rights,
                black_castling_rights: self.black_castling_rights,
                turn: self.turn,
            },
            Color::Black => Board {
                squares: self.squares,
                en_passant: self.en_passant,
                white_castling_rights: self.white_castling_rights,
                black_castling_rights: rights,
                turn: self.turn,
            },
        }
    }

    /// The same board with `content` on the square `pos`.
    pub(crate) fn with_square(&self, pos: Position, content: Option<Piece>) -> (r: Board)
        requires
            pos.is_on_board(),
            content matches Some(piece) ==> piece.get_pos() == pos,
        ensures
            r@ == (BoardView {
                pieces: match content {
                    Some(piece) => self@.pieces.insert(pos, piece),
                    None => self@.pieces.remove(pos),
                },
                ..self@
            }),
    {
        let mut squares = self.squares;
        squares[((7 - pos.get_row()) * 8 + pos.get_col()) as usize] = Square { piece: content };
        proof {
            use_type_invariant(self);
            lemma_squares_wf(self.squares@);
            lemma_squares_wf(squares@);
            assert(squares_wf(squares@)) by {
                assert forall|p: Position|
                    p.is_on_board() && (#[trigger] squares@[BoardView::square_index(
                        p,
                    )]).piece is Some implies squares@[BoardView::square_index(
                    p,
                )].piece->0.get_pos() == p by {
                    if p != pos {
                        assert(self.squares@[BoardView::square_index(p)].piece is Some);
                    }
                }
            }
            match content {
                Some(piece) => {
                    assert(pieces_of(squares@) =~= self@.pieces.insert(pos, piece));
                },
                None => {
                    assert(pieces_of(squares@) =~= self@.pieces.remove(pos));
                },
            }
        }
        Board {
            squares,
            en_passant: self.en_passant,
            white_castling_rights: self.white_castling_rights,
            black_castling_rights: self.black_castling_rights,
            turn: self.turn,
        }
    }

    /// The square that is stored at place `i`.
    pub fn square_position(i: usize) -> (r: Position)
        requires
            i < 64,
        ensures
            r == BoardView::square_pos(i as int),
            r.is_on_board(),
    {
        Position::new(7 - (i / 8) as i32, (i % 8) as i32)
    }

    /// What stands on the square that is stored at place `i`; `None` for a
    /// place that the board does not have.
    pub fn piece_at_index(&self, i: usize) -> (r: Option<Piece>)
        ensures
            r == (if i < 64 {
                self@.piece_at(BoardView::square_pos(i as int))
            } else {
                None
            }),
            r matches Some(piece) ==> piece.get_pos() == BoardView::square_pos(i as int),
    {
        if i >= 64 {
            return None;
        }
        proof {
            use_type_invariant(self);
            lemma_square_pos(i as int);
        }
        self.squares[i].get_piece()
    }

    /// The piece on `pos`; `None` for an empty square and for a position
    /// beside the board.
    pub fn get_piece(&self, pos: Position) -> (r: Option<Piece>)
        ensures
            r == self@.piece_at(pos),
            r matches Some(piece) ==> piece.get_pos() == pos && pos.is_on_board(),
    {
        proof {
            use_type_invariant(self);
        }
        if pos.is_off_board() {
            return None;
        }
        self.squares[((7 - pos.get_row()) * 8 + pos.get_col()) as usize].get_piece()
    }

    /// Does `pos` hold a piece of `ally_color`?
    pub fn has_ally_piece(&self, pos: Position, ally_color: Color) -> (r: bool)
        ensures
            r == self@.has_ally_piece(pos, ally_color),
    {
        if let Some(piece) = self.get_piece(pos) {
            piece.get_color() == ally_color
        } else {
            false
        }
    }

    /// Does `pos` hold a piece of the opponent of `ally_color`?
    pub fn has_enemy_piece(&self, pos: Position, ally_color: Color) -> (r: bool)
        ensures
            r == self@.has_enemy_piece(pos, ally_color),
    {
        if let Some(piece) = self.get_piece(pos) {
            piece.get_color() == ally_color.not()
        } else {
            false
        }
    }

    pub fn has_piece(&self, pos: Position) -> (r: bool)
        ensures
            r == self@.has_piece(pos),
    {
        self.get_piece(pos).is_some()
    }

    pub fn has_no_piece(&self, pos: Position) -> (r: bool)
        ensures
            r == self@.has_no_piece(pos),
    {
        self.get_piece(pos).is_none()
    }

    /// The board without the pieces of `color`.
    pub fn remove_all(&self, color: Color) -> (r: Board)
        ensures
            r@ == self@.remove_all(color),
    {
        let mut result = *self;
        let mut i: usize = 0;
        while i < 64
            invariant
                0 <= i <= 64,
                result@.en_passant == self@.en_passant,
                result@.white_castling_rights == self@.white_castling_rights,
                result@.black_castling_rights == self@.black_castling_rights,
                result@.turn == self@.turn,
                forall|p: Position|
                    #![trigger result@.pieces.contains_key(p)]
                    #![trigger self@.pieces.contains_key(p)]
                    result@.pieces.contains_key(p) <==> self@.pieces.contains_key(p) && !(
                    BoardView::square_index(p) < i && self@.pieces[p].get_color() == color),
                forall|p: Position| #[trigger]
                    result@.pieces.contains_key(p) ==> result@.pieces[p] == self@.pieces[p],
            decreases 64 - i,
        {
            let pos = Self::square_position(i);
            proof {
                use_type_invariant(self);
                use_type_invariant(&result);
                lemma_square_pos(i as int);
            }
            if let Some(piece) = result.get_piece(pos) {
                if piece.get_color() == color {
                    result = result.with_square(pos, None);
                }
            }
            i = i + 1;
        }
        proof {
            use_type_invariant(self);
            assert(result@.pieces =~= self@.remove_all(color).pieces) by {
                assert forall|p: Position| self@.pieces.contains_key(p) implies 0
                    <= BoardView::square_index(p) < 64 by {}
            }
        }
        result
    }

    /// The material of `color` less that of its opponent, in points.
    pub fn get_material_advantage(&self, color: Color) -> (r: i32)
        ensures
            r == self@.material_advantage(color),
    {
        let mut total: i32 = 0;
        let mut i: usize = 0;
        while i < 64
            invariant
                0 <= i <= 64,
                total == self@.material_among(color, i as int),
                -9999 * i <= total <= 9999 * i,
            decreases 64 - i,
        {
            let value: i32 = match self.piece_at_index(i) {
                Some(piece) => {
                    if piece.get_color() == color {
                        piece.get_material_value()
                    } else {
                        -piece.get_material_value()
                    }
                },
                None => 0,
            };
            assert(value == self@.material_at(color, i as int));
            total = total + value;
            i = i + 1;
        }
        total
    }

    /// The content of the 64 squares as numbers, in the order in which the
    /// squares are stored: rank 8 first, and within a rank the a-file.
    pub fn squares_u8_value(&self) -> (r: [u8; 64])
        ensures
            r@ == self@.square_codes(),
    {
        let mut result: [u8; 64] = [0;64];
        let mut i: usize = 0;
        while i < 64
            invariant
                0 <= i <= 64,
                forall|j: int|
                    0 <= j < i ==> result@[j] == BoardView::square_code(
                        self@.piece_at(BoardView::square_pos(j)),
                    ),
            decreases 64 - i,
        {
            let code: u8 = match self.piece_at_index(i) {
                None => 0,
                Some(Piece::Pawn(Color::White, _)) => 1,
                Some(Piece::Knight(Color::White, _)) => 2,
                Some(Piece::Bishop(Color::White, _)) => 3,
                Some(Piece::Rook(Color::White, _)) => 4,
                Some(Piece::Queen(Color::White, _)) => 5,
                Some(Piece::King(Color::White, _)) => 6,
                Some(Piece::Pawn(Color::Black, _)) => 7,
                Some(Piece::Knight(Color::Black, _)) => 8,
                Some(Piece::Bishop(Color::Black, _)) => 9,
                Some(Piece::Rook(Color::Black, _)) => 10,
                Some(Piece::Queen(Color::Black, _)) => 11,
                Some(Piece::King(Color::Black, _)) => 12,
            };
            result[i] = code;
            i = i + 1;
        }
        assert(result@ =~= self@.square_codes());
        result
    }

    /// The square of the king of `color`, if it has one.
    pub fn get_king_pos(&self, color: Color) -> (r: Option<Position>)
        ensures
            r == self@.king_pos(color),
            r matches Some(pos) ==> self@.piece_at(pos) == Some(Piece::King(color, pos)),
    {
        let mut king_pos: Option<Position> = None;
        let mut i: usize = 0;
        while i < 64
            invariant
                0 <= i <= 64,
                king_pos == self@.king_pos_among(color, i as int),
                king_pos matches Some(pos) ==> self@.piece_at(pos) == Some(
                    Piece::King(color, pos),
                ),
            decreases 64 - i,
        {
            if let Some(Piece::King(c, pos)) = self.piece_at_index(i) {
                if c == color {
                    king_pos = Some(pos);
                }
            }
            i = i + 1;
        }
        king_pos
    }

    /// The board after the piece on `from` has gone to `to`; no rule of
    /// movement is checked.
    pub fn move_piece(&self, from: Position, to: Position, promotion: Option<Piece>) -> (r: Board)
        ensures
            r@ == self@.move_piece(from, to, promotion),
    {
        let cleared = self.with_en_passant(None);
        if from.is_off_board() || to.is_off_board() {
            return cleared;
        }
        match cleared.get_piece(from) {
            None => cleared,
            Some(piece) => {
                let color = piece.get_color();
                let mut arriving = piece;
                if piece.is_pawn() && (to.get_row() == 0 || to.get_row() == 7) {
                    arriving =
                    match promotion {
                        Some(wanted) => {
                            if wanted.is_king() || wanted.is_pawn() {
                                Piece::Queen(piece.get_color(), piece.get_pos())
                            } else {
                                wanted.with_color(piece.get_color()).move_to(piece.get_pos())
                            }
                        },
                        None => Piece::Queen(piece.get_color(), piece.get_pos()),
                    };
                }
                let mut result = cleared.with_square(from, None);
                if piece.is_starting_pawn() && (from.get_row() - to.get_row() == 2 || to.get_row()
                    - from.get_row() == 2) {
                    result = result.with_en_passant(Some(to.pawn_back(color)));
                }
                result = result.with_square(to, Some(arriving.move_to(to)));
                let mut rights = self.get_castling_rights(color);
                if piece.is_king() {
                    rights.disable_all();
                } else if piece.is_queenside_rook() {
                    rights.disable_queenside();
                } else if piece.is_kingside_rook() {
                    rights.disable_kingside();
                }
                result = result.with_castling_rights(color, rights);
                proof {
                    assert(result@.pieces =~= self@.move_piece(from, to, promotion).pieces);
                }
                result
            },
        }
    }

    /// The position from which a game starts.
    pub fn new() -> (r: Board)
        ensures
            r@ == BoardView::initial(),
    {
        let a8 = Position::new(7, 0);
        let b8 = Position::new(7, 1);
        let c8 = Position::new(7, 2);
        let d8 = Position::new(7, 3);
        let e8 = Position::new(7, 4);
        let f8 = Position::new(7, 5);
        let g8 = Position::new(7, 6);
        let h8 = Position::new(7, 7);
        let a1 = Position::new(0, 0);
        let b1 = Position::new(0, 1);
        let c1 = Position::new(0, 2);
        let d1 = Position::new(0, 3);
        let e1 = Position::new(0, 4);
        let f1 = Position::new(0, 5);
        let g1 = Position::new(0, 6);
        let h1 = Position::new(0, 7);
        let board = BoardBuilder::default()
            .piece(Piece::Rook(Color::Black, a8))
            .piece(Piece::Knight(Color::Black, b8))
            .piece(Piece::Bishop(Color::Black, c8))
            .piece(Piece::Queen(Color::Black, d8))
            .piece(Piece::King(Color::Black, e8))
            .piece(Piece::Bishop(Color::Black, f8))
            .piece(Piece::Knight(Color::Black, g8))
            .piece(Piece::Rook(Color::Black, h8))
            .row(Piece::Pawn(Color::Black, Position::new(6, 0)))
            .row(Piece::Pawn(Color::White, Position::new(1, 0)))
            .piece(Piece::Rook(Color::White, a1))
            .piece(Piece::Knight(Color::White, b1))
            .piece(Piece::Bishop(Color::White, c1))
            .piece(Piece::Queen(Color::White, d1))
            .piece(Piece::King(Color::White, e1))
            .piece(Piece::Bishop(Color::White, f1))
            .piece(Piece::Knight(Color::White, g1))
            .piece(Piece::Rook(Color::White, h1))
            .enable_castling()
            .build();
        proof {
            assert(board@.pieces =~= BoardView::initial().pieces);
        }
        board
    }
}

/// Sets up a board piece by piece.
pub struct BoardBuilder {
    pub board: Board,
}

impl From<Board> for BoardBuilder {
    fn from(board: Board) -> (r: BoardBuilder) {
        BoardBuilder { board }
    }
}

impl vstd::std_specs::convert::FromSpecImpl<Board> for BoardBuilder {
    open spec fn obeys_from_spec() -> bool {
        true
    }

    open spec fn from_spec(board: Board) -> BoardBuilder {
        BoardBuilder { board }
    }
}

impl Default for BoardBuilder {
    /// A builder that starts from the empty board.
    fn default() -> (r: BoardBuilder)
        ensures
            r.board@ == BoardView::empty(),
    {
        BoardBuilder { board: Board::empty() }
    }
}

impl BoardBuilder {
    /// Fills the row of `piece` with pieces like it: eight squares from the
    /// a-file on, or from the column of `piece` on if that lies left of the
    /// board. What falls beside the board is left out.
    pub fn row(self, piece: Piece) -> (r: BoardBuilder)
        ensures
            r.board@ == self.board@.fill_row(
                piece,
                piece.get_pos().row as int,
                if piece.get_pos().col > 0 {
                    0
                } else {
                    piece.get_pos().col as int
                },
                8,
            ),
    {
        let pos = piece.get_pos();
        let row = pos.get_row();
        let first: i64 = if pos.get_col() > 0 {
            0
        } else {
            pos.get_col() as i64
        };
        let mut board = self.board;
        let mut j: i64 = 0;
        while j < 8
            invariant
                0 <= j <= 8,
                row == piece.get_pos().row,
                first == (if piece.get_pos().col > 0 {
                    0
                } else {
                    piece.get_pos().col as int
                }),
                board@ == self.board@.fill_row(piece, row as int, first as int, j as int),
            decreases 8 - j,
        {
            let col: i64 = first + j;
            if 0 <= row && row <= 7 && 0 <= col && col <= 7 {
                let target = Position::new(row, col as i32);
                board = board.with_square(target, Some(piece.move_to(target)));
            }
            j = j + 1;
            proof {
                assert(board@.pieces =~= self.board@.fill_row(
                    piece,
                    row as int,
                    first as int,
                    j as int,
                ).pieces);
            }
        }
        BoardBuilder { board }
    }

    /// Fills the column of `piece` with pieces like it: eight squares from
    /// rank 1 up, or from the row of `piece` up if that lies below the
    /// board. What falls beside the board is left out.
    pub fn column(self, piece: Piece) -> (r: BoardBuilder)
        ensures
            r.board@ == self.board@.fill_column(
                piece,
                piece.get_pos().col as int,
                if piece.get_pos().row > 0 {
                    0
                } else {
                    piece.get_pos().row as int
                },
                8,
            ),
    {
        let pos = piece.get_pos();
        let col = pos.get_col();
        let first: i64 = if pos.get_row() > 0 {
            0
        } else {
            pos.get_row() as i64
        };
        let mut board = self.board;
        let mut j: i64 = 0;
        while j < 8
            invariant
                0 <= j <= 8,
                col == piece.get_pos().col,
                first == (if piece.get_pos().row > 0 {
                    0
                } else {
                    piece.get_pos().row as int
                }),
                board@ == self.board@.fill_column(piece, col as int, first as int, j as int),
            decreases 8 - j,
        {
            let row: i64 = first + j;
            if 0 <= col && col <= 7 && 0 <= row && row <= 7 {
                let target = Position::new(row as i32, col);
                board = board.with_square(target, Some(piece.move_to(target)));
            }
            j = j + 1;
            proof {
                assert(board@.pieces =~= self.board@.fill_column(
                    piece,
                    col as int,
                    first as int,
                    j as int,
                ).pieces);
            }
        }
        BoardBuilder { board }
    }

    /// Puts `piece` on the square it names. A piece beside the board is
    /// left out.
    pub fn piece(self, piece: Piece) -> (r: BoardBuilder)
        ensures
            r.board@ == self.board@.place(piece),
    {
        let pos = piece.get_pos();
        if pos.is_off_board() {
            return self;
        }
        BoardBuilder { board: self.board.with_square(pos, Some(piece)) }
    }

    /// Allows both sides both castlings.
    pub fn enable_castling(self) -> (r: BoardBuilder)
        ensures
            r.board@ == (BoardView {
                white_castling_rights: CastlingRights { kingside: true, queenside: true },
                black_castling_rights: CastlingRights { kingside: true, queenside: true },
                ..self.board@
            }),
    {
        let mut rights = CastlingRights::default();
        rights.enable_all();
        BoardBuilder {
            board: self.board.with_castling_rights(Color::Black, rights).with_castling_rights(
                Color::White,
                rights,
            ),
        }
    }

    /// Takes every castling right from both sides.
    pub fn disable_castling(self) -> (r: BoardBuilder)
        ensures
            r.board@ == (BoardView {
                white_castling_rights: CastlingRights { kingside: false, queenside: false },
                black_castling_rights: CastlingRights { kingside: false, queenside: false },
                ..self.board@
            }),
    {
        let mut rights = CastlingRights::default();
        rights.disable_all();
        BoardBuilder {
            board: self.board.with_castling_rights(Color::Black, rights).with_castling_rights(
                Color::White,
                rights,
            ),
        }
    }

    pub fn enable_queenside_castle(self, color: Color) -> (r: BoardBuilder)
        ensures
            r.board@ == self.board@.with_castling_rights(
                color,
                CastlingRights { queenside: true, ..self.board@.castling_rights(color) },
            ),
    {
        let mut rights = self.board.get_castling_rights(color);
        rights.enable_queenside();
        BoardBuilder { board: self.board.with_castling_rights(color, rights) }
    }

    pub fn disable_queenside_castle(self, color: Color) -> (r: BoardBuilder)
        ensures
            r.board@ == self.board@.with_castling_rights(
                color,
                CastlingRights { queenside: false, ..self.board@.castling_rights(color) },
            ),
    {
        let mut rights = self.board.get_castling_rights(color);
        rights.disable_queenside();
        BoardBuilder { board: self.board.with_castling_rights(color, rights) }
    }

    pub fn enable_kingside_castle(self, color: Color) -> (r: BoardBuilder)
        ensures
            r.board@ == self.board@.with_castling_rights(
                color,
                CastlingRights { kingside: true, ..self.board@.castling_rights(color) },
            ),
    {
        let mut rights = self.board.get_castling_rights(color);
        rights.enable_kingside();
        BoardBuilder { board: self.board.with_castling_rights(color, rights) }
    }

    pub fn disable_kingside_castle(self, color: Color) -> (r: BoardBuilder)
        ensures
            r.board@ == self.board@.with_castling_rights(
                color,
                CastlingRights { kingside: false, ..self.board@.castling_rights(color) },
            ),
    {
        let mut rights = self.board.get_castling_rights(color);
        rights.disable_kingside();
        BoardBuilder { board: self.board.with_castling_rights(color, rights) }
    }

    pub fn set_en_passant(self, position: Option<Position>) -> (r: BoardBuilder)
        ensures
            r.board@ == (BoardView { en_passant: position, ..self.board@ }),
    {
        BoardBuilder { board: self.board.with_en_passant(position) }
    }

    pub fn set_turn(self, color: Color) -> (r: BoardBuilder)
        ensures
            r.board@ == self.board@.with_turn(color),
    {
        BoardBuilder { board: self.board.set_turn(color) }
    }

    /// The board that has been set up.
    pub fn build(self) -> (r: Board)
        ensures
            r == self.board,
    {
        self.board
    }
}

} // verus!
