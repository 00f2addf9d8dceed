//! The rules of movement, threat, castling and legality, as executable code.

use crate::board::{lemma_square_index, Board};
use crate::game::Move;
use crate::model::BoardView;
use crate::piece::{Color, Piece, Position};
use core::ops::Not;
use vstd::prelude::*;

verus! {

impl Board {
    /// Are all squares strictly between the aligned positions `from` and
    /// `to` empty?
    pub(crate) fn path_is_clear(&self, from: Position, to: Position) -> (r: bool)
        requires
            from.spec_is_diagonal_to(to) || from.spec_is_orthogonal_to(to),
        ensures
            r == self@.path_is_clear(from, to),
    {
        let n = from.exec_distance(to);
        let mut k: i64 = 1;
        while k < n
            invariant
                1 <= k,
                n == from.distance(to),
                from.spec_is_diagonal_to(to) || from.spec_is_orthogonal_to(to),
                forall|j: int|
                    0 < j < k ==> self@.piece_at(#[trigger] from.step_toward(to, j)) is None,
            decreases n - k,
        {
            if self.has_piece(from.exec_step_toward(to, k)) {
                return false;
            }
            k = k + 1;
        }
        true
    }
}

impl Piece {
    /// May this piece go to `new_pos` by the rule of its kind?
    pub fn is_legal_move(&self, new_pos: Position, board: &Board) -> (r: bool)
        ensures
            r == self.spec_is_legal_move(new_pos, board@),
    {
        if board.has_ally_piece(new_pos, self.get_color()) || new_pos.is_off_board() {
            return false;
        }
        match *self {
            Piece::Pawn(ally_color, pos) => {
                let forward: i64 = match ally_color {
                    Color::White => 1,
                    Color::Black => -1,
                };
                let rows: i64 = new_pos.row as i64 - pos.row as i64;
                let cols: i64 = new_pos.col as i64 - pos.col as i64;
                let ahead = rows == forward;
                let beside = cols == -1 || cols == 1;
                (match board.get_en_passant() {
                    Some(en_passant) => en_passant == new_pos && ahead && beside,
                    None => false,
                }) || (pos.is_starting_pawn(ally_color) && rows == 2 * forward && cols == 0
                    && board.has_no_piece(new_pos) && board.has_no_piece(pos.pawn_up(ally_color)))
                    || (board.has_enemy_piece(new_pos, ally_color) && ahead && beside) || (
                board.has_no_piece(new_pos) && ahead && cols == 0)
            },
            Piece::King(_, pos) => pos.is_adjacent_to(new_pos),
            Piece::Queen(_, pos) => {
                if pos.is_orthogonal_to(new_pos) || pos.is_diagonal_to(new_pos) {
                    board.path_is_clear(pos, new_pos)
                } else {
                    false
                }
            },
            Piece::Rook(_, pos) => {
                if pos.is_orthogonal_to(new_pos) {
                    board.path_is_clear(pos, new_pos)
                } else {
                    false
                }
            },
            Piece::Bishop(_, pos) => {
                if pos.is_diagonal_to(new_pos) {
                    board.path_is_clear(pos, new_pos)
                } else {
                    false
                }
            },
            Piece::Knight(_, pos) => pos.is_knight_move(new_pos),
        }
    }

    /// Does this piece attack `new_pos`?
    pub fn is_legal_attack(&self, new_pos: Position, board: &Board) -> (r: bool)
        ensures
            r == self.spec_is_legal_attack(new_pos, board@),
    {
        if board.has_ally_piece(new_pos, self.get_color()) || new_pos.is_off_board() {
            return false;
        }
        match *self {
            Piece::Pawn(ally_color, pos) => {
                let forward: i64 = match ally_color {
                    Color::White => 1,
                    Color::Black => -1,
                };
                let rows: i64 = new_pos.row as i64 - pos.row as i64;
                let cols: i64 = new_pos.col as i64 - pos.col as i64;
                rows == forward && (cols == -1 || cols == 1)
            },
            Piece::King(_, pos) => pos.is_adjacent_to(new_pos),
            Piece::Queen(_, pos) => {
                if pos.is_orthogonal_to(new_pos) || pos.is_diagonal_to(new_pos) {
                    board.path_is_clear(pos, new_pos)
                } else {
                    false
                }
            },
            Piece::Rook(_, pos) => {
                if pos.is_orthogonal_to(new_pos) {
                    board.path_is_clear(pos, new_pos)
                } else {
                    false
                }
            },
            Piece::Bishop(_, pos) => {
                if pos.is_diagonal_to(new_pos) {
                    board.path_is_clear(pos, new_pos)
                } else {
                    false
                }
            },
            Piece::Knight(_, pos) => pos.is_knight_move(new_pos),
        }
    }
}

/// A piece attacks only along its row, its column and its diagonals, or by
/// a knight's jump.
pub proof fn lemma_attack_is_aligned(piece: Piece, pos: Position, board: BoardView)
    requires
        piece.spec_is_legal_attack(pos, board),
    ensures
        piece.spec_get_pos().spec_is_orthogonal_to(pos) || piece.spec_get_pos().spec_is_diagonal_to(
            pos,
        ) || piece.spec_get_pos().spec_is_knight_move(pos),
{
}

impl Board {
    /// Is `pos` attacked by a piece of the opponent of `ally_color`?
    pub fn is_threatened(&self, pos: Position, ally_color: Color) -> (r: bool)
        ensures
            r == self@.is_threatened(pos, ally_color),
    {
        let mut i: usize = 0;
        while i < 64
            invariant
                0 <= i <= 64,
                forall|j: int|
                    0 <= j < i ==> !self@.is_attacked_from(
                        #[trigger] BoardView::square_pos(j),
                        pos,
                        ally_color,
                    ),
            decreases 64 - i,
        {
            let square_pos = Board::square_position(i);
            if square_pos.is_orthogonal_to(pos) || square_pos.is_diagonal_to(pos)
                || square_pos.is_knight_move(pos) {
                if let Some(piece) = self.piece_at_index(i) {
                    if piece.get_color() != ally_color && piece.is_legal_attack(pos, self) {
                        assert(self@.is_attacked_from(square_pos, pos, ally_color));
                        return true;
                    }
                }
            } else {
                proof {
                    use_type_invariant(self);
                    if let Some(piece) = self@.piece_at(square_pos) {
                        if piece.spec_is_legal_attack(pos, self@) {
                            lemma_attack_is_aligned(piece, pos, self@);
                        }
                    }
                }
            }
            assert(!self@.is_attacked_from(square_pos, pos, ally_color));
            i = i + 1;
        }
        proof {
            use_type_invariant(self);
            assert forall|from: Position| !self@.is_attacked_from(from, pos, ally_color) by {
                if self@.piece_at(from) is Some {
                    lemma_square_index(from);
                    assert(BoardView::square_pos(BoardView::square_index(from)) == from);
                }
            }
        }
        false
    }

    /// Is the king of `color` in check?
    pub fn is_in_check(&self, color: Color) -> (r: bool)
        ensures
            r == self@.is_in_check(color),
    {
        if let Some(king_pos) = self.get_king_pos(color) {
            self.is_threatened(king_pos, color)
        } else {
            false
        }
    }

    /// May `color` castle on the king's side?
    pub fn can_kingside_castle(&self, color: Color) -> (r: bool)
        ensures
            r == self@.can_kingside_castle(color),
    {
        let row: i32 = match color {
            Color::White => 0,
            Color::Black => 7,
        };
        let rook_pos = Position::new(row, 7);
        self.has_no_piece(Position::new(row, 5)) && self.has_no_piece(Position::new(row, 6))
            && self.get_piece(rook_pos) == Some(Piece::Rook(color, rook_pos))
            && self.get_castling_rights(color).can_kingside_castle() && !self.is_in_check(color)
            && !self.is_threatened(Position::new(row, 4), color) && !self.is_threatened(
            Position::new(row, 5),
            color,
        ) && !self.is_threatened(Position::new(row, 6), color)
    }

    /// May `color` castle on the queen's side?
    pub fn can_queenside_castle(&self, color: Color) -> (r: bool)
        ensures
            r == self@.can_queenside_castle(color),
    {
        let row: i32 = match color {
            Color::White => 0,
            Color::Black => 7,
        };
        let rook_pos = Position::new(row, 0);
        self.has_no_piece(Position::new(row, 1)) && self.has_no_piece(Position::new(row, 2))
            && self.has_no_piece(Position::new(row, 3)) && self.get_piece(rook_pos) == Some(
            Piece::Rook(color, rook_pos),
        ) && self.get_castling_rights(color).can_queenside_castle() && !self.is_in_check(color)
            && !self.is_threatened(Position::new(row, 4), color) && !self.is_threatened(
            Position::new(row, 3),
            color,
        ) && !self.is_threatened(Position::new(row, 2), color)
    }

    /// The board after the castling of the side to move.
    fn castle(&self, king_col: i32, rook_from: i32, rook_to: i32) -> (r: Board)
        requires
            0 <= king_col <= 7,
            0 <= rook_from <= 7,
            0 <= rook_to <= 7,
        ensures
            r@ == self@.castle(king_col as int, rook_from as int, rook_to as int),
    {
        let row: i32 = match self.get_turn_color() {
            Color::White => 0,
            Color::Black => 7,
        };
        match self.get_king_pos(self.get_turn_color()) {
            Some(king_pos) => self.move_piece(king_pos, Position::new(row, king_col), None)
                .move_piece(Position::new(row, rook_from), Position::new(row, rook_to), None),
            None => self.with_en_passant(None),
        }
    }

    /// The board after `m`, with the turn passed on. The move is made
    /// whether or not it is legal.
    pub fn apply_move(&self, m: Move) -> (r: Board)
        ensures
            r@ == self@.apply_move(m),
    {
        let next = match m {
            Move::KingSideCastle => self.castle(6, 7, 5),
            Move::QueenSideCastle => self.castle(2, 0, 3),
            Move::Piece(from, to) => {
                let moved = self.move_piece(from, to, None);
                match self.get_piece(from) {
                    Some(Piece::Pawn(color, _)) => {
                        let captured = Position::new(from.row, to.col);
                        if self.is_en_passant_capture(color, from, to) {
                            if captured.is_on_board() {
                                moved.with_square(captured, None)
                            } else {
                                proof {
                                    use_type_invariant(&moved);
                                    assert(moved@.pieces.remove(captured) =~= moved@.pieces);
                                }
                                moved
                            }
                        } else {
                            moved
                        }
                    },
                    _ => moved,
                }
            },
            Move::Promotion(from, to, promotion) => self.move_piece(from, to, Some(promotion)),
            Move::Resign => self.with_en_passant(None),
        };
        next.set_turn(self.get_turn_color().not())
    }

    /// Does a pawn of `color` that goes from `from`, a square of the board,
    /// to `to` capture en passant?
    fn is_en_passant_capture(&self, color: Color, from: Position, to: Position) -> (r: bool)
        requires
            from.is_on_board(),
        ensures
            r == self@.is_en_passant_capture(color, from, to),
    {
        let forward: i32 = match color {
            Color::White => 1,
            Color::Black => -1,
        };
        match self.get_en_passant() {
            Some(en_passant) => en_passant == to && to.row == from.row + forward && (to.col
                == from.col - 1 || to.col == from.col + 1),
            None => false,
        }
    }

    /// May `player_color` make the move `m`?
    pub fn is_legal_move(&self, m: Move, player_color: Color) -> (r: bool)
        ensures
            r == self@.is_legal_move(m, player_color),
    {
        match m {
            Move::KingSideCastle => self.can_kingside_castle(player_color),
            Move::QueenSideCastle => self.can_queenside_castle(player_color),
            Move::Piece(from, to) => {
                if from.is_off_board() || to.is_off_board() {
                    return false;
                }
                match self.get_piece(from) {
                    Some(piece) => piece.get_color() == player_color && (piece.is_legal_move(
                        to,
                        self,
                    ) || (piece.is_pawn() && self.is_en_passant_capture(player_color, from, to)))
                        && !self.apply_move(m).is_in_check(player_color),
                    None => false,
                }
            },
            Move::Promotion(from, to, _) => {
                if from.is_off_board() || to.is_off_board() || !(to.row == 0 || to.row == 7) {
                    return false;
                }
                match self.get_piece(from) {
                    Some(piece) => piece.is_pawn() && piece.get_color() == player_color
                        && piece.is_legal_move(to, self) && !self.apply_move(m).is_in_check(
                        player_color,
                    ),
                    None => false,
                }
            },
            Move::Resign => true,
        }
    }
}

} // verus!
