//! Chess rules and move search with machine-checked contracts.
//!
//! The rules are written twice: as mathematical definitions over the board's
//! view in [`model`], and as executable code in [`board`], [`rules`],
//! [`movegen`] and [`game`], each function of which is proved to compute what
//! its definition says. What the rules imply is proved in [`laws`].

pub mod board;
pub mod game;
pub mod laws;
pub mod model;
pub mod movegen;
pub mod piece;
pub mod rules;
pub mod weights;

use crate::board::Board;
use crate::game::Move;
use crate::model::BoardView;
use crate::piece::{Color, Position};
use vstd::prelude::*;

verus! {

/// The squares to mark when the piece on `pos` is picked up: the
/// destinations of its legal moves, and for a castling the square on which
/// the king lands.
pub fn get_hint_pos(board: &Board, pos: Position) -> (r: Vec<Position>)
    ensures
        r@ == board@.hints(pos),
{
    let mut result: Vec<Position> = Vec::new();
    if let Some(piece) = board.get_piece(pos) {
        let row: i32 = match piece.get_color() {
            Color::White => 0,
            Color::Black => 7,
        };
        let ghost hint = BoardView::hint_for(piece.spec_get_color());
        let moves = piece.get_legal_moves(board);
        let mut i: usize = 0;
        while i < moves.len()
            invariant
                0 <= i <= moves.len(),
                row == piece.spec_get_color().home_row(),
                hint == BoardView::hint_for(piece.spec_get_color()),
                result@ == moves@.take(i as int).filter_map(hint),
            decreases moves.len() - i,
        {
            proof {
                moves@.lemma_filter_map_take_succ(hint, i as int);
            }
            match moves[i] {
                Move::KingSideCastle => result.push(Position::new(row, 6)),
                Move::QueenSideCastle => result.push(Position::new(row, 2)),
                Move::Piece(_, to) => result.push(to),
                Move::Promotion(_, to, _) => result.push(to),
                Move::Resign => {},
            }
            i = i + 1;
        }
        assert(moves@.take(moves.len() as int) =~= moves@);
    }
    result
}

} // verus!
