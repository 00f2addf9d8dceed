//! The rules of chess as mathematical definitions.
//!
//! [`BoardView`] is what a [`crate::board::Board`] stands for: a map from the
//! occupied squares to their pieces, the en-passant target, the castling
//! rights and the side to move. Every contract of the executable code is
//! stated over the definitions of this file.

use crate::board::CastlingRights;
use crate::game::{GameResultView, Move};
use crate::piece::{gap, Color, Piece, Position};
use vstd::prelude::*;

verus! {

/// The board as a mathematical value.
#[verifier::ext_equal]
pub struct BoardView {
    /// The occupied squares and what stands on each.
    pub pieces: Map<Position, Piece>,
    pub en_passant: Option<Position>,
    pub white_castling_rights: CastlingRights,
    pub black_castling_rights: CastlingRights,
    pub turn: Color,
}

/// The `i`-th of the eight steps of a king, as (rows, columns): left, right,
/// up, down, then the four diagonals.
pub open spec fn king_step(i: int) -> (int, int) {
    if i == 0 {
        (0, -1)
    } else if i == 1 {
        (0, 1)
    } else if i == 2 {
        (1, 0)
    } else if i == 3 {
        (-1, 0)
    } else if i == 4 {
        (1, -1)
    } else if i == 5 {
        (-1, -1)
    } else if i == 6 {
        (1, 1)
    } else {
        (-1, 1)
    }
}

/// The `i`-th of the eight jumps of a knight, as (rows, columns).
pub open spec fn knight_jump(i: int) -> (int, int) {
    if i == 0 {
        (1, -2)
    } else if i == 1 {
        (2, -1)
    } else if i == 2 {
        (-1, -2)
    } else if i == 3 {
        (-2, -1)
    } else if i == 4 {
        (1, 2)
    } else if i == 5 {
        (2, 1)
    } else if i == 6 {
        (-1, 2)
    } else {
        (-2, 1)
    }
}

/// The one-element sequence of `x` if `keep` holds, else the empty one.
pub open spec fn only_if<A>(keep: bool, x: A) -> Seq<A> {
    if keep {
        seq![x]
    } else {
        Seq::empty()
    }
}

impl BoardView {
    /// Every piece stands on a square of the board, and knows which.
    pub open spec fn wf(self) -> bool {
        forall|p: Position| #[trigger]
            self.pieces.contains_key(p) ==> p.is_on_board() && self.pieces[p].get_pos() == p
    }

    pub open spec fn piece_at(self, pos: Position) -> Option<Piece> {
        if self.pieces.contains_key(pos) {
            Some(self.pieces[pos])
        } else {
            None
        }
    }

    /// The square that the board stores at place `i`: rank 8 comes first,
    /// and within a rank the a-file.
    pub open spec fn square_pos(i: int) -> Position {
        Position { row: (7 - i / 8) as i32, col: (i % 8) as i32 }
    }

    /// The place at which the board stores the square `pos`.
    pub open spec fn square_index(pos: Position) -> int {
        (7 - pos.row) * 8 + pos.col
    }

    pub open spec fn has_ally_piece(self, pos: Position, ally_color: Color) -> bool {
        self.piece_at(pos) matches Some(piece) && piece.get_color() == ally_color
    }

    pub open spec fn has_enemy_piece(self, pos: Position, ally_color: Color) -> bool {
        self.piece_at(pos) matches Some(piece) && piece.get_color() == ally_color.opponent()
    }

    pub open spec fn has_piece(self, pos: Position) -> bool {
        self.piece_at(pos) is Some
    }

    pub open spec fn has_no_piece(self, pos: Position) -> bool {
        self.piece_at(pos) is None
    }

    pub open spec fn castling_rights(self, color: Color) -> CastlingRights {
        match color {
            Color::White => self.white_castling_rights,
            Color::Black => self.black_castling_rights,
        }
    }

    pub open spec fn with_castling_rights(self, color: Color, rights: CastlingRights) -> BoardView {
        match color {
            Color::White => BoardView { white_castling_rights: rights, ..self },
            Color::Black => BoardView { black_castling_rights: rights, ..self },
        }
    }

    pub open spec fn with_turn(self, color: Color) -> BoardView {
        BoardView { turn: color, ..self }
    }

    /// The board without the pieces of `color`.
    pub open spec fn remove_all(self, color: Color) -> BoardView {
        BoardView {
            pieces: Map::new(
                |p: Position| self.pieces.contains_key(p) && self.pieces[p].get_color() != color,
                |p: Position| self.pieces[p],
            ),
            ..self
        }
    }

    /// The board without pieces: White to move, no en-passant target, every
    /// castling right set.
    pub open spec fn empty() -> BoardView {
        BoardView {
            pieces: Map::empty(),
            en_passant: None,
            white_castling_rights: CastlingRights { kingside: true, queenside: true },
            black_castling_rights: CastlingRights { kingside: true, queenside: true },
            turn: Color::White,
        }
    }

    /// The board with `piece` on the square it names; the same board for a
    /// piece beside the board.
    pub open spec fn place(self, piece: Piece) -> BoardView {
        if piece.spec_get_pos().is_on_board() {
            BoardView { pieces: self.pieces.insert(piece.spec_get_pos(), piece), ..self }
        } else {
            self
        }
    }

    /// The board with `count` squares of `row`, from column `first` on, each
    /// holding `piece`; what falls beside the board is left out.
    pub open spec fn fill_row(self, piece: Piece, row: int, first: int, count: int) -> BoardView {
        BoardView {
            pieces: Map::new(
                |p: Position|
                    self.pieces.contains_key(p) || (p.is_on_board() && p.row == row && first
                        <= p.col < first + count),
                |p: Position|
                    if p.is_on_board() && p.row == row && first <= p.col < first + count {
                        piece.spec_move_to(p)
                    } else {
                        self.pieces[p]
                    },
            ),
            ..self
        }
    }

    /// The board with `count` squares of `col`, from row `first` on, each
    /// holding `piece`; what falls beside the board is left out.
    pub open spec fn fill_column(self, piece: Piece, col: int, first: int, count: int)
        -> BoardView {
        BoardView {
            pieces: Map::new(
                |p: Position|
                    self.pieces.contains_key(p) || (p.is_on_board() && p.col == col && first
                        <= p.row < first + count),
                |p: Position|
                    if p.is_on_board() && p.col == col && first <= p.row < first + count {
                        piece.spec_move_to(p)
                    } else {
                        self.pieces[p]
                    },
            ),
            ..self
        }
    }

    /// The piece with which a game starts on `pos`, if there is one.
    pub open spec fn initial_piece(pos: Position) -> Option<Piece> {
        if pos.is_off_board() {
            None
        } else if pos.row == 1 {
            Some(Piece::Pawn(Color::White, pos))
        } else if pos.row == 6 {
            Some(Piece::Pawn(Color::Black, pos))
        } else if pos.row == 0 || pos.row == 7 {
            let color = if pos.row == 0 {
                Color::White
            } else {
                Color::Black
            };
            if pos.col == 0 || pos.col == 7 {
                Some(Piece::Rook(color, pos))
            } else if pos.col == 1 || pos.col == 6 {
                Some(Piece::Knight(color, pos))
            } else if pos.col == 2 || pos.col == 5 {
                Some(Piece::Bishop(color, pos))
            } else if pos.col == 3 {
                Some(Piece::Queen(color, pos))
            } else {
                Some(Piece::King(color, pos))
            }
        } else {
            None
        }
    }

    /// The position from which a game starts.
    pub open spec fn initial() -> BoardView {
        BoardView {
            pieces: Map::new(
                |p: Position| Self::initial_piece(p) is Some,
                |p: Position| Self::initial_piece(p)->0,
            ),
            en_passant: None,
            white_castling_rights: CastlingRights { kingside: true, queenside: true },
            black_castling_rights: CastlingRights { kingside: true, queenside: true },
            turn: Color::White,
        }
    }

    /// The square of the king of `color` among the first `n` stored squares:
    /// of several, the one stored last.
    pub open spec fn king_pos_among(self, color: Color, n: int) -> Option<Position>
        decreases n,
    {
        if n <= 0 {
            None
        } else {
            match self.piece_at(Self::square_pos(n - 1)) {
                Some(Piece::King(c, pos)) => if c == color {
                    Some(pos)
                } else {
                    self.king_pos_among(color, n - 1)
                },
                _ => self.king_pos_among(color, n - 1),
            }
        }
    }

    /// The square of the king of `color`, if it has one.
    pub open spec fn king_pos(self, color: Color) -> Option<Position> {
        self.king_pos_among(color, 64)
    }

    /// What the stored square `i` adds to the material of `color`: the value
    /// of its piece, counted against `color` if it is the opponent's.
    pub open spec fn material_at(self, color: Color, i: int) -> int {
        match self.piece_at(Self::square_pos(i)) {
            Some(piece) => if piece.get_color() == color {
                piece.spec_get_material_value() as int
            } else {
                -(piece.spec_get_material_value() as int)
            },
            None => 0,
        }
    }

    /// The material of `color` less that of its opponent on the first `n`
    /// stored squares.
    pub open spec fn material_among(self, color: Color, n: int) -> int
        decreases n,
    {
        if n <= 0 {
            0
        } else {
            self.material_among(color, n - 1) + self.material_at(color, n - 1)
        }
    }

    /// The material of `color` less that of its opponent, in points.
    pub open spec fn material_advantage(self, color: Color) -> int {
        self.material_among(color, 64)
    }

    /// The number under which the content of a square is handed out:
    /// 0 for an empty square, 1 to 6 for White's pawn, knight, bishop, rook,
    /// queen and king, 7 to 12 for Black's.
    pub open spec fn square_code(square: Option<Piece>) -> u8 {
        match square {
            None => 0,
            Some(Piece::Pawn(Color::White, _)) => 1,
            Some(Piece::Knight(Color::White, _)) => 2,
            Some(Piece::Bishop(Color::White, _)) => 3,
            Some(Piece::Rook(Color::White, _)) => 4,
            Some(Piece::Queen(Color::White, _)) => 5,
            Some(Piece::King(Color::White, _)) => 6,
            Some(Piece::Pawn(Color::Black, _)) => 7,
            Some(Piece::Knight(Color::Black, _)) => 8,
            Some(Piece::Bishop(Color::Black, _)) => 9,
            Some(Piece::Rook(Color::Black, _)) => 10,
            Some(Piece::Queen(Color::Black, _)) => 11,
            Some(Piece::King(Color::Black, _)) => 12,
        }
    }

    /// The number of squares among the first `n` stored ones whose content
    /// has the code `code`.
    pub open spec fn count_among(self, code: u8, n: int) -> int
        decreases n,
    {
        if n <= 0 {
            0
        } else {
            self.count_among(code, n - 1) + if Self::square_code(
                self.piece_at(Self::square_pos(n - 1)),
            ) == code {
                1int
            } else {
                0int
            }
        }
    }

    /// The number of squares whose content has the code `code`.
    pub open spec fn count(self, code: u8) -> int {
        self.count_among(code, 64)
    }

    /// The codes of the 64 squares in the order in which they are stored.
    pub open spec fn square_codes(self) -> Seq<u8> {
        Seq::new(64, |i: int| Self::square_code(self.piece_at(Self::square_pos(i))))
    }

    /// Are all squares strictly between `from` and `to` empty?
    pub open spec fn path_is_clear(self, from: Position, to: Position) -> bool {
        forall|k: int|
            0 < k < from.distance(to) ==> self.piece_at(#[trigger] from.step_toward(to, k)) is None
    }

    /// Does the piece on `from`, an opponent of `ally_color`, attack `pos`?
    pub open spec fn is_attacked_from(self, from: Position, pos: Position, ally_color: Color)
        -> bool {
        self.piece_at(from) matches Some(piece) && piece.get_color() != ally_color
            && piece.spec_is_legal_attack(pos, self)
    }

    /// Does any piece of the opponent of `ally_color` attack `pos`?
    pub open spec fn is_threatened(self, pos: Position, ally_color: Color) -> bool {
        exists|from: Position| self.is_attacked_from(from, pos, ally_color)
    }

    /// Is the king of `color` attacked? A side without a king is never in
    /// check.
    pub open spec fn is_in_check(self, color: Color) -> bool {
        self.king_pos(color) matches Some(king_pos) && self.is_threatened(king_pos, color)
    }

    /// The piece that arrives when a pawn is promoted: the kind of
    /// `promotion` with the pawn's side and square, and a queen where none
    /// is given or a king or a pawn is.
    pub open spec fn promoted(pawn: Piece, promotion: Option<Piece>) -> Piece {
        match promotion {
            Some(wanted) => if wanted.spec_is_king() || wanted.spec_is_pawn() {
                Piece::Queen(pawn.get_color(), pawn.get_pos())
            } else {
                wanted.spec_with_color(pawn.get_color()).spec_move_to(pawn.get_pos())
            },
            None => Piece::Queen(pawn.get_color(), pawn.get_pos()),
        }
    }

    /// The piece that stands on `to` after `piece` has moved there.
    pub open spec fn arriving(piece: Piece, to: Position, promotion: Option<Piece>) -> Piece {
        if piece.spec_is_pawn() && (to.row == 0 || to.row == 7) {
            Self::promoted(piece, promotion).spec_move_to(to)
        } else {
            piece.spec_move_to(to)
        }
    }

    /// The rights that are left after `piece` has moved.
    pub open spec fn rights_after(rights: CastlingRights, piece: Piece) -> CastlingRights {
        if piece.spec_is_king() {
            CastlingRights { kingside: false, queenside: false }
        } else if piece.spec_is_queenside_rook() {
            CastlingRights { queenside: false, ..rights }
        } else if piece.spec_is_kingside_rook() {
            CastlingRights { kingside: false, ..rights }
        } else {
            rights
        }
    }

    /// The board after the piece on `from` has gone to `to`, whatever the
    /// rules of movement say.
    ///
    /// The en-passant target is cleared first. With `from` or `to` beside
    /// the board, or no piece on `from`, nothing else changes. Otherwise the
    /// piece leaves `from` and arrives on `to`, promoted if it is a pawn that
    /// reaches the first or last rank; a pawn that leaves its starting rank by
    /// two rows sets the en-passant target behind it; and the mover's side
    /// loses the castling rights that a king's or a home rook's move costs.
    pub open spec fn move_piece(self, from: Position, to: Position, promotion: Option<Piece>)
        -> BoardView {
        let cleared = BoardView { en_passant: None, ..self };
        if from.is_off_board() || to.is_off_board() {
            cleared
        } else {
            match self.piece_at(from) {
                None => cleared,
                Some(piece) => {
                    let color = piece.get_color();
                    let moved = BoardView {
                        pieces: self.pieces.remove(from).insert(
                            to,
                            Self::arriving(piece, to, promotion),
                        ),
                        en_passant: if piece.spec_is_starting_pawn() && gap(
                            from.row as int,
                            to.row as int,
                        ) == 2 {
                            Some(to.offset(-color.forward(), 0))
                        } else {
                            None
                        },
                        ..self
                    };
                    moved.with_castling_rights(
                        color,
                        Self::rights_after(self.castling_rights(color), piece),
                    )
                },
            }
        }
    }

    /// May `color` castle on the king's side?
    pub open spec fn can_kingside_castle(self, color: Color) -> bool {
        let row = color.home_row() as i32;
        &&& self.has_no_piece(Position { row, col: 5 })
        &&& self.has_no_piece(Position { row, col: 6 })
        &&& self.piece_at(Position { row, col: 7 }) == Some(
            Piece::Rook(color, Position { row, col: 7 }),
        )
        &&& self.castling_rights(color).kingside
        &&& !self.is_in_check(color)
        &&& !self.is_threatened(Position { row, col: 4 }, color)
        &&& !self.is_threatened(Position { row, col: 5 }, color)
        &&& !self.is_threatened(Position { row, col: 6 }, color)
    }

    /// May `color` castle on the queen's side?
    pub open spec fn can_queenside_castle(self, color: Color) -> bool {
        let row = color.home_row() as i32;
        &&& self.has_no_piece(Position { row, col: 1 })
        &&& self.has_no_piece(Position { row, col: 2 })
        &&& self.has_no_piece(Position { row, col: 3 })
        &&& self.piece_at(Position { row, col: 0 }) == Some(
            Piece::Rook(color, Position { row, col: 0 }),
        )
        &&& self.castling_rights(color).queenside
        &&& !self.is_in_check(color)
        &&& !self.is_threatened(Position { row, col: 4 }, color)
        &&& !self.is_threatened(Position { row, col: 3 }, color)
        &&& !self.is_threatened(Position { row, col: 2 }, color)
    }

    /// Does a pawn of `color` that goes from `from` to `to` capture en
    /// passant? It does when `to` is the en-passant target and lies
    /// diagonally ahead of `from`.
    pub open spec fn is_en_passant_capture(self, color: Color, from: Position, to: Position)
        -> bool {
        &&& self.en_passant == Some(to)
        &&& to.row == from.row + color.forward()
        &&& (to.col == from.col - 1 || to.col == from.col + 1)
    }

    /// The board after the castling of the side to move: its king goes to
    /// the g-file (`king_col` 6) or the c-file (2) of its home rank, the rook
    /// of that wing to the square the king has crossed. Where the side has no
    /// king, no piece moves.
    pub open spec fn castle(self, king_col: int, rook_from: int, rook_to: int) -> BoardView {
        let row = self.turn.home_row() as i32;
        match self.king_pos(self.turn) {
            Some(king_pos) => self.move_piece(
                king_pos,
                Position { row, col: king_col as i32 },
                None,
            ).move_piece(
                Position { row, col: rook_from as i32 },
                Position { row, col: rook_to as i32 },
                None,
            ),
            None => BoardView { en_passant: None, ..self },
        }
    }

    /// The board after `m`, with the turn passed on. Nothing is asked of `m`:
    /// legality is [`Self::is_legal_move`]. A step is made as
    /// [`Self::move_piece`] makes it; where it is a pawn's capture en passant,
    /// what stands beside the pawn's old square, on the file of the target,
    /// leaves the board too. Resigning moves no piece. Whatever the move, the
    /// old en-passant target is gone.
    pub open spec fn apply_move(self, m: Move) -> BoardView {
        let next = match m {
            Move::KingSideCastle => self.castle(6, 7, 5),
            Move::QueenSideCastle => self.castle(2, 0, 3),
            Move::Piece(from, to) => {
                let moved = self.move_piece(from, to, None);
                if self.piece_at(from) matches Some(Piece::Pawn(color, _))
                    && self.is_en_passant_capture(color, from, to) {
                    BoardView {
                        pieces: moved.pieces.remove(Position { row: from.row, col: to.col }),
                        ..moved
                    }
                } else {
                    moved
                }
            },
            Move::Promotion(from, to, promotion) => self.move_piece(from, to, Some(promotion)),
            Move::Resign => BoardView { en_passant: None, ..self },
        };
        next.with_turn(self.turn.opponent())
    }

    /// The board after the moves of `moves`, made one after the other.
    pub open spec fn apply_moves(self, moves: Seq<Move>) -> BoardView
        decreases moves.len(),
    {
        if moves.len() == 0 {
            self
        } else {
            self.apply_moves(moves.drop_last()).apply_move(moves.last())
        }
    }

    /// Does `pos` hold a king of `color`?
    pub open spec fn has_king(self, pos: Position, color: Color) -> bool {
        self.piece_at(pos) matches Some(Piece::King(c, _)) && c == color
    }

    /// Is there at most one king of `color` on the board?
    pub open spec fn has_one_king_at_most(self, color: Color) -> bool {
        forall|p: Position, q: Position|
            #[trigger] self.has_king(p, color) && #[trigger] self.has_king(q, color) ==> p == q
    }

    /// May `player_color` make the move `m`?
    ///
    /// A castling is legal when the board allows it. A step from `from` to
    /// `to`, both on the board, is legal when `from` holds a piece of the
    /// player that may go to `to` by the rule of its kind, or a pawn of the
    /// player that captures en passant, and the player's king is not in
    /// check afterwards. A promotion is a legal step of a pawn to the first
    /// or last rank. Resigning is always legal.
    pub open spec fn is_legal_move(self, m: Move, player_color: Color) -> bool {
        match m {
            Move::KingSideCastle => self.can_kingside_castle(player_color),
            Move::QueenSideCastle => self.can_queenside_castle(player_color),
            Move::Piece(from, to) => {
                &&& from.is_on_board()
                &&& to.is_on_board()
                &&& self.piece_at(from) matches Some(piece)
                &&& piece.get_color() == player_color
                &&& (piece.spec_is_legal_move(to, self) || (piece.spec_is_pawn()
                    && self.is_en_passant_capture(player_color, from, to)))
                &&& !self.apply_move(m).is_in_check(player_color)
            },
            Move::Promotion(from, to, _) => {
                &&& from.is_on_board()
                &&& to.is_on_board()
                &&& (to.row == 0 || to.row == 7)
                &&& self.piece_at(from) matches Some(piece)
                &&& piece.spec_is_pawn()
                &&& piece.get_color() == player_color
                &&& piece.spec_is_legal_move(to, self)
                &&& !self.apply_move(m).is_in_check(player_color)
            },
            Move::Resign => true,
        }
    }

    /// The test that a destination of a piece on `from` has to pass.
    pub open spec fn keeps(self, from: Position, color: Color) -> spec_fn(Position) -> bool {
        |to: Position| to.is_on_board() && self.is_legal_move(Move::Piece(from, to), color)
    }

    /// The legal moves of the pieces of the side to move on the first `n`
    /// stored squares, square by square.
    pub open spec fn legal_moves_among(self, n: int) -> Seq<Move>
        decreases n,
    {
        if n <= 0 {
            Seq::empty()
        } else {
            self.legal_moves_among(n - 1) + (match self.piece_at(Self::square_pos(n - 1)) {
                Some(piece) => if piece.get_color() == self.turn {
                    piece.spec_get_legal_moves(self)
                } else {
                    Seq::empty()
                },
                None => Seq::empty(),
            })
        }
    }

    /// All legal moves of the side to move, in the order in which the search
    /// tries them.
    pub open spec fn legal_moves(self) -> Seq<Move> {
        self.legal_moves_among(64)
    }

    /// Has the side to move no legal move and its king in check?
    pub open spec fn is_checkmate(self) -> bool {
        self.legal_moves().len() == 0 && self.is_in_check(self.turn)
    }

    /// Has the side to move no legal move, though its king is not in check?
    pub open spec fn is_stalemate(self) -> bool {
        self.legal_moves().len() == 0 && !self.is_in_check(self.turn)
    }

    /// What the move `m` of the side to move leads to.
    ///
    /// Resigning gives the game to the opponent on the board as it stands.
    /// A move that is not legal for the side to move is refused, and the
    /// board is handed back. A legal move is made: if it leaves the opponent
    /// without a legal move, the mover has won where the opponent's king is
    /// in check, and the game is drawn where it is not; else the game goes
    /// on.
    pub open spec fn play_move(self, m: Move) -> GameResultView {
        if m == Move::Resign {
            GameResultView::Victory(self, self.turn.opponent())
        } else if !self.is_legal_move(m, self.turn) {
            GameResultView::IllegalMove(self)
        } else {
            let next = self.apply_move(m);
            if next.is_checkmate() {
                GameResultView::Victory(next, self.turn)
            } else if next.is_stalemate() {
                GameResultView::Stalemate
            } else {
                GameResultView::Continuing(next)
            }
        }
    }

    /// The square to mark for the move `m` of a piece of `color`: where the
    /// piece lands, and for a castling where the king does.
    pub open spec fn hint_for(color: Color) -> spec_fn(Move) -> Option<Position> {
        |m: Move|
            match m {
                Move::KingSideCastle => Some(Position { row: color.home_row() as i32, col: 6 }),
                Move::QueenSideCastle => Some(Position { row: color.home_row() as i32, col: 2 }),
                Move::Piece(_, to) => Some(to),
                Move::Promotion(_, to, _) => Some(to),
                Move::Resign => None,
            }
    }

    /// The squares to mark when the piece on `pos` is picked up: one for
    /// each of its legal moves, in their order; none for an empty square.
    pub open spec fn hints(self, pos: Position) -> Seq<Position> {
        match self.piece_at(pos) {
            Some(piece) => piece.spec_get_legal_moves(self).filter_map(
                Self::hint_for(piece.spec_get_color()),
            ),
            None => Seq::empty(),
        }
    }

    /// What the stored square `i` adds to the value of the board for
    /// `color`, in half points.
    pub open spec fn value_at(self, color: Color, i: int) -> int {
        match self.piece_at(Self::square_pos(i)) {
            Some(piece) => if piece.get_color() == color {
                piece.spec_get_weighted_value()
            } else {
                -piece.spec_get_weighted_value()
            },
            None => 0,
        }
    }

    /// The value for `color` of what stands on the first `n` stored squares.
    pub open spec fn value_among(self, color: Color, n: int) -> int
        decreases n,
    {
        if n <= 0 {
            0
        } else {
            self.value_among(color, n - 1) + self.value_at(color, n - 1)
        }
    }

    /// The weighted values of the pieces of `color` less those of its
    /// opponent, in half points.
    pub open spec fn value_for(self, color: Color) -> int {
        self.value_among(color, 64)
    }

    /// The value for `color` of the position that `m` leads to, searched
    /// `depth` plies further.
    pub open spec fn child_value(self, m: Move, depth: nat, color: Color) -> int
        decreases depth, 1nat, 0nat,
    {
        self.apply_move(m).minimax(depth, color)
    }

    /// The index in `moves` of the move that the side to move prefers: the
    /// first whose child value is greatest when `color` is to move, least
    /// when its opponent is.
    pub open spec fn best_index(self, moves: Seq<Move>, depth: nat, color: Color) -> int
        decreases depth, 2nat, moves.len(),
    {
        if moves.len() <= 1 {
            0
        } else {
            let before = self.best_index(moves.drop_last(), depth, color);
            let last = self.child_value(moves.last(), depth, color);
            let best = self.child_value(moves[before], depth, color);
            if (self.turn == color && last > best) || (self.turn != color && last < best) {
                moves.len() - 1
            } else {
                before
            }
        }
    }

    /// The value of the board for `color`, searched `depth` plies deep: at
    /// depth 0, and where the side to move has no legal move, the value of
    /// the pieces; else the best child value for the side to move, which
    /// seeks the greatest if it is `color` and the least if not.
    pub open spec fn minimax(self, depth: nat, color: Color) -> int
        decreases depth, 0nat, 0nat,
    {
        let moves = self.legal_moves();
        if depth == 0 || moves.len() == 0 {
            self.value_for(color)
        } else {
            let d = (depth - 1) as nat;
            self.child_value(moves[self.best_index(moves, d, color)], d, color)
        }
    }

    /// The move that a search of `depth` plies chooses for `color`: the
    /// first legal move of the side to move with the best child value, and
    /// resignation where there is no legal move.
    pub open spec fn best_move(self, depth: nat, color: Color) -> Move {
        let moves = self.legal_moves();
        if moves.len() == 0 {
            Move::Resign
        } else {
            moves[self.best_index(moves, depth, color)]
        }
    }
}

impl Piece {
    /// May a pawn of `color` on `pos` go to `new_pos`: by an en-passant
    /// capture, by two steps from its starting rank over empty squares, by
    /// capturing diagonally ahead, or by one step onto an empty square?
    pub open spec fn pawn_may_move(color: Color, pos: Position, new_pos: Position, board: BoardView)
        -> bool {
        let ahead = new_pos.row == pos.row + color.forward();
        let beside = new_pos.col == pos.col - 1 || new_pos.col == pos.col + 1;
        ||| board.en_passant == Some(new_pos) && ahead && beside
        ||| {
            &&& pos.spec_is_starting_pawn(color)
            &&& new_pos.row == pos.row + 2 * color.forward()
            &&& new_pos.col == pos.col
            &&& board.has_no_piece(new_pos)
            &&& board.has_no_piece(pos.offset(color.forward(), 0))
        }
        ||| board.has_enemy_piece(new_pos, color) && ahead && beside
        ||| board.has_no_piece(new_pos) && ahead && new_pos.col == pos.col
    }

    /// Does the rule of this piece's kind let it go from where it stands to
    /// `new_pos`? The destination is on the board and holds no piece of its
    /// own side; a queen, rook or bishop passes over empty squares only.
    pub open spec fn spec_is_legal_move(&self, new_pos: Position, board: BoardView) -> bool {
        &&& !board.has_ally_piece(new_pos, self.spec_get_color())
        &&& new_pos.is_on_board()
        &&& match *self {
            Piece::Pawn(color, pos) => Self::pawn_may_move(color, pos, new_pos, board),
            Piece::King(_, pos) => pos.spec_is_adjacent_to(new_pos),
            Piece::Queen(_, pos) => (pos.spec_is_orthogonal_to(new_pos) || pos.spec_is_diagonal_to(
                new_pos,
            )) && board.path_is_clear(pos, new_pos),
            Piece::Rook(_, pos) => pos.spec_is_orthogonal_to(new_pos) && board.path_is_clear(
                pos,
                new_pos,
            ),
            Piece::Bishop(_, pos) => pos.spec_is_diagonal_to(new_pos) && board.path_is_clear(
                pos,
                new_pos,
            ),
            Piece::Knight(_, pos) => pos.spec_is_knight_move(new_pos),
        }
    }

    /// Does this piece attack `new_pos`? As [`Self::spec_is_legal_move`], but
    /// that a pawn attacks the two squares diagonally ahead of it and no
    /// other, whatever stands there.
    pub open spec fn spec_is_legal_attack(&self, new_pos: Position, board: BoardView) -> bool {
        &&& !board.has_ally_piece(new_pos, self.spec_get_color())
        &&& new_pos.is_on_board()
        &&& match *self {
            Piece::Pawn(color, pos) => new_pos.row == pos.row + color.forward() && (new_pos.col
                == pos.col - 1 || new_pos.col == pos.col + 1),
            _ => self.spec_is_legal_move(new_pos, board),
        }
    }

    /// The squares that a pawn of `color` on `pos` may try, in order: the
    /// en-passant target, two steps ahead, one step ahead, and the two
    /// captures.
    pub open spec fn pawn_targets(color: Color, pos: Position, board: BoardView) -> Seq<Position> {
        let up = pos.offset(color.forward(), 0);
        let next_up = pos.offset(2 * color.forward(), 0);
        let up_left = pos.offset(color.forward(), -1);
        let up_right = pos.offset(color.forward(), 1);
        only_if(
            board.en_passant matches Some(en_passant) && (en_passant == up_left || en_passant
                == up_right),
            board.en_passant->0,
        ) + only_if(
            next_up.is_on_board() && pos.spec_is_starting_pawn(color) && board.has_no_piece(up)
                && board.has_no_piece(next_up),
            next_up,
        ) + only_if(up.is_on_board() && board.has_no_piece(up), up) + only_if(
            up_left.is_on_board() && board.has_enemy_piece(up_left, color),
            up_left,
        ) + only_if(up_right.is_on_board() && board.has_enemy_piece(up_right, color), up_right)
    }

    /// Is `to` a square other than `pos` that holds no piece of `color`?
    pub open spec fn is_free_for(color: Color, pos: Position, board: BoardView) -> spec_fn(
        Position,
    ) -> bool {
        |to: Position| to != pos && !board.has_ally_piece(to, color)
    }

    /// Is `to` a square of the board that holds no piece of `color`?
    pub open spec fn is_open_to(color: Color, board: BoardView) -> spec_fn(Position) -> bool {
        |to: Position| to.is_on_board() && !board.has_ally_piece(to, color)
    }

    /// Is `to` a square on a diagonal of `pos`, other than `pos`, that holds
    /// no piece of `color`?
    pub open spec fn is_free_diagonal_for(color: Color, pos: Position, board: BoardView)
        -> spec_fn(Position) -> bool {
        |to: Position| to != pos && !board.has_ally_piece(to, color) && to.spec_is_diagonal_to(pos)
    }

    /// The eight squares around `pos`, in the order of [`king_step`].
    pub open spec fn king_squares(pos: Position) -> Seq<Position> {
        Seq::new(8, |i: int| pos.offset(king_step(i).0, king_step(i).1))
    }

    /// The eight squares a knight's jump from `pos`, in the order of
    /// [`knight_jump`].
    pub open spec fn knight_squares(pos: Position) -> Seq<Position> {
        Seq::new(8, |i: int| pos.offset(knight_jump(i).0, knight_jump(i).1))
    }

    /// The squares of the column of `pos`, from rank 1 up.
    pub open spec fn column_squares(pos: Position) -> Seq<Position> {
        Seq::new(8, |row: int| Position { row: row as i32, col: pos.col })
    }

    /// The squares of the row of `pos`, from the a-file on.
    pub open spec fn row_squares(pos: Position) -> Seq<Position> {
        Seq::new(8, |col: int| Position { row: pos.row, col: col as i32 })
    }

    /// The 64 squares, rank by rank from rank 1 up, each from the a-file on.
    pub open spec fn all_squares() -> Seq<Position> {
        Seq::new(64, |i: int| Position { row: (i / 8) as i32, col: (i % 8) as i32 })
    }

    /// The squares of the column of `pos`, then those of its row, that a
    /// rook of `color` may try.
    pub open spec fn straight_targets(color: Color, pos: Position, board: BoardView) -> Seq<
        Position,
    > {
        Self::column_squares(pos).filter(Self::is_free_for(color, pos, board))
            + Self::row_squares(pos).filter(Self::is_free_for(color, pos, board))
    }

    /// The squares on the diagonals of `pos` that a bishop of `color` may
    /// try.
    pub open spec fn diagonal_targets(color: Color, pos: Position, board: BoardView) -> Seq<
        Position,
    > {
        Self::all_squares().filter(Self::is_free_diagonal_for(color, pos, board))
    }

    /// The squares that this piece, standing on the board, may try to go to
    /// by the pattern of its kind, in the order in which they are tried.
    pub open spec fn targets(&self, board: BoardView) -> Seq<Position> {
        match *self {
            Piece::Pawn(color, pos) => Self::pawn_targets(color, pos, board),
            Piece::King(color, pos) => Self::king_squares(pos).filter(
                Self::is_open_to(color, board),
            ),
            Piece::Queen(color, pos) => Self::straight_targets(color, pos, board)
                + Self::diagonal_targets(color, pos, board),
            Piece::Rook(color, pos) => Self::straight_targets(color, pos, board),
            Piece::Bishop(color, pos) => Self::diagonal_targets(color, pos, board),
            Piece::Knight(color, pos) => Self::knight_squares(pos).filter(
                Self::is_open_to(color, board),
            ),
        }
    }

    /// The step from `pos` to a given square, as a move.
    pub open spec fn step_from(pos: Position) -> spec_fn(Position) -> Move {
        |to: Position| Move::Piece(pos, to)
    }

    /// The castlings that the board allows to this piece, if it is a king:
    /// that on the king's side first.
    pub open spec fn castlings(&self, board: BoardView) -> Seq<Move> {
        match *self {
            Piece::King(color, _) => only_if(
                board.can_kingside_castle(color),
                Move::KingSideCastle,
            ) + only_if(board.can_queenside_castle(color), Move::QueenSideCastle),
            _ => Seq::empty(),
        }
    }

    /// The legal moves of this piece: those of its targets that pass the
    /// board's test of legality, then its castlings. A piece beside the
    /// board has no steps.
    pub open spec fn spec_get_legal_moves(&self, board: BoardView) -> Seq<Move> {
        let pos = self.spec_get_pos();
        let color = self.spec_get_color();
        let steps = if pos.is_on_board() {
            self.targets(board).filter(board.keeps(pos, color)).map_values(Self::step_from(pos))
        } else {
            Seq::empty()
        };
        steps + self.castlings(board)
    }
}

} // verus!
