//! Moves and their outcomes.

use crate::board::Board;
use crate::model::BoardView;
use crate::piece::{Color, Piece, Position};
use core::ops::Not;
use vstd::prelude::*;

verus! {

/// A move as a player submits it. It describes a transition and keeps no
/// history.
#[derive(Clone, Copy, Debug, PartialEq, Eq, Structural, PartialOrd, Ord)]
pub enum Move {
    KingSideCastle,
    QueenSideCastle,
    /// A step of the piece on the first square to the second.
    Piece(Position, Position),
    /// A step of a pawn to the first or last rank, and the kind of piece it
    /// becomes there.
    Promotion(Position, Position, Piece),
    Resign,
}

/// What a submitted move has led to.
#[derive(Clone, Copy, Debug, PartialEq, Eq, PartialOrd, Ord)]
pub enum GameResult {
    /// The move was made; the game goes on from this board.
    Continuing(Board),
    /// The game has ended on this board, won by this side.
    Victory(Board, Color),
    /// The move was made and has left the other side without a legal move,
    /// though not in check.
    Stalemate,
    /// The move is not legal; the board is as it was.
    IllegalMove(Board),
}

/// A [`GameResult`] as a mathematical value.
#[verifier::ext_equal]
pub enum GameResultView {
    Continuing(BoardView),
    Victory(BoardView, Color),
    Stalemate,
    IllegalMove(BoardView),
}

impl View for GameResult {
    type V = GameResultView;

    open spec fn view(&self) -> GameResultView {
        match *self {
            GameResult::Continuing(board) => GameResultView::Continuing(board@),
            GameResult::Victory(board, winner) => GameResultView::Victory(board@, winner),
            GameResult::Stalemate => GameResultView::Stalemate,
            GameResult::IllegalMove(board) => GameResultView::IllegalMove(board@),
        }
    }
}

impl GameResult {
    /// Has the game ended, by a victory or by a draw?
    pub fn is_over(&self) -> (r: bool)
        ensures
            r == (self@ is Victory || self@ is Stalemate),
    {
        match self {
            GameResult::Victory(_, _) | GameResult::Stalemate => true,
            _ => false,
        }
    }

    /// The board that the result carries: the one after the move where the
    /// move was made, the one before it where it was refused, and none for a
    /// draw.
    pub fn get_board(&self) -> (r: Option<Board>)
        ensures
            r == (match *self {
                GameResult::Continuing(board) => Some(board),
                GameResult::Victory(board, _) => Some(board),
                GameResult::Stalemate => None::<Board>,
                GameResult::IllegalMove(board) => Some(board),
            }),
    {
        match *self {
            GameResult::Continuing(board) => Some(board),
            GameResult::Victory(board, _) => Some(board),
            GameResult::Stalemate => None,
            GameResult::IllegalMove(board) => Some(board),
        }
    }
}

/// The number of plies that [`get_next_move`] looks beyond the move it
/// chooses.
pub const SEARCH_DEPTH: u32 = 2;

impl Board {
    /// All legal moves of the side to move, piece by piece in the order in
    /// which the squares are stored.
    pub fn get_legal_moves(&self) -> (r: Vec<Move>)
        ensures
            r@ == self@.legal_moves(),
    {
        let turn = self.get_turn_color();
        let mut r: Vec<Move> = Vec::new();
        let mut i: usize = 0;
        while i < 64
            invariant
                0 <= i <= 64,
                turn == self@.turn,
                r@ == self@.legal_moves_among(i as int),
            decreases 64 - i,
        {
            if let Some(piece) = self.piece_at_index(i) {
                if piece.get_color() == turn {
                    let mut moves = piece.get_legal_moves(self);
                    r.append(&mut moves);
                }
            }
            i = i + 1;
            assert(r@ =~= self@.legal_moves_among(i as int));
        }
        r
    }

    /// The weighted values of the pieces of `color` less those of its
    /// opponent, in half points.
    pub fn value_for(&self, color: Color) -> (r: i32)
        ensures
            r == self@.value_for(color),
    {
        let mut total: i32 = 0;
        let mut i: usize = 0;
        while i < 64
            invariant
                0 <= i <= 64,
                total == self@.value_among(color, i as int),
                -199990 * i <= total <= 199990 * i,
            decreases 64 - i,
        {
            let value: i32 = match self.piece_at_index(i) {
                Some(piece) => {
                    proof {
                        crate::board::lemma_square_pos(i as int);
                    }
                    if piece.get_color() == color {
                        piece.get_weighted_value()
                    } else {
                        -piece.get_weighted_value()
                    }
                },
                None => 0,
            };
            assert(value == self@.value_at(color, i as int));
            total = total + value;
            i = i + 1;
        }
        total
    }

    /// Has the side to move no legal move and its king in check?
    pub fn is_checkmate(&self) -> (r: bool)
        ensures
            r == self@.is_checkmate(),
    {
        self.is_in_check(self.get_turn_color()) && self.get_legal_moves().len() == 0
    }

    /// Has the side to move no legal move, though its king is not in check?
    pub fn is_stalemate(&self) -> (r: bool)
        ensures
            r == self@.is_stalemate(),
    {
        !self.is_in_check(self.get_turn_color()) && self.get_legal_moves().len() == 0
    }

    /// Makes the move `m` for the side to move, if it is legal, and says
    /// what has come of it.
    pub fn play_move(&self, m: Move) -> (r: GameResult)
        ensures
            r@ == self@.play_move(m),
    {
        let mover = self.get_turn_color();
        if m == Move::Resign {
            return GameResult::Victory(*self, mover.not());
        }
        if !self.is_legal_move(m, mover) {
            return GameResult::IllegalMove(*self);
        }
        let next = self.apply_move(m);
        if next.get_legal_moves().len() == 0 {
            if next.is_in_check(next.get_turn_color()) {
                GameResult::Victory(next, mover)
            } else {
                GameResult::Stalemate
            }
        } else {
            GameResult::Continuing(next)
        }
    }
}

/// The place in `moves` of the move that the side to move prefers, and the
/// value for `color` of the position it leads to, searched `depth` plies
/// further.
fn best_child(board: &Board, moves: &Vec<Move>, depth: u32, color: Color) -> (r: (usize, i32))
    requires
        moves@.len() > 0,
    ensures
        r.0 == board@.best_index(moves@, depth as nat, color),
        r.0 < moves@.len(),
        r.1 == board@.child_value(moves@[r.0 as int], depth as nat, color),
    decreases depth, 1nat,
{
    let maximizing = board.get_turn_color() == color;
    let mut best: usize = 0;
    let mut best_value: i32 = minimax(&board.apply_move(moves[0]), depth, color);
    let mut i: usize = 1;
    while i < moves.len()
        invariant
            1 <= i <= moves.len(),
            maximizing == (board@.turn == color),
            best < i,
            best == board@.best_index(moves@.take(i as int), depth as nat, color),
            best_value == board@.child_value(moves@[best as int], depth as nat, color),
        decreases moves.len() - i,
    {
        let value = minimax(&board.apply_move(moves[i]), depth, color);
        proof {
            let grown = moves@.take(i + 1);
            assert(grown.drop_last() =~= moves@.take(i as int));
            assert(value == board@.child_value(grown.last(), depth as nat, color));
            assert(board@.best_index(grown, depth as nat, color) == (if (board@.turn == color
                && value > best_value) || (board@.turn != color && value < best_value) {
                i as int
            } else {
                best as int
            }));
        }
        if (maximizing && value > best_value) || (!maximizing && value < best_value) {
            best = i;
            best_value = value;
        }
        i = i + 1;
    }
    assert(moves@.take(moves.len() as int) =~= moves@);
    (best, best_value)
}

/// The value of `board` for `color`, searched `depth` plies deep: each side
/// in its turn picks the move that is best for it.
pub fn minimax(board: &Board, depth: u32, color: Color) -> (r: i32)
    ensures
        r == board@.minimax(depth as nat, color),
    decreases depth, 0nat,
{
    if depth == 0 {
        return board.value_for(color);
    }
    let moves = board.get_legal_moves();
    if moves.len() == 0 {
        return board.value_for(color);
    }
    best_child(board, &moves, depth - 1, color).1
}

/// The move that a search chooses on `board` for `color`: the first legal
/// move of the side to move whose outcome, searched `depth` plies further,
/// is the best for that side. Where there is no legal move, resignation.
pub fn get_best_move(board: &Board, depth: u32, color: Color) -> (r: Move)
    ensures
        r == board@.best_move(depth as nat, color),
{
    let moves = board.get_legal_moves();
    if moves.len() == 0 {
        return Move::Resign;
    }
    let best = best_child(board, &moves, depth, color).0;
    moves[best]
}

/// The move that the automated side makes on `board`. The flag says which
/// side is automated: Black if it is set, White if not.
pub fn get_next_move(board: &Board, is_black: bool) -> (r: Move)
    ensures
        r == board@.best_move(
            SEARCH_DEPTH as nat,
            if is_black {
                Color::Black
            } else {
                Color::White
            },
        ),
{
    let color = if is_black {
        Color::Black
    } else {
        Color::White
    };
    get_best_move(board, SEARCH_DEPTH, color)
}

} // verus!
