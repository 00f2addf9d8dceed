//! The enumeration of legal moves.

use crate::board::Board;
use crate::game::Move;
use crate::model::{only_if, BoardView};
use crate::piece::{Color, Piece, Position};
use vstd::prelude::*;

verus! {

/// The eight squares around `pos`.
fn king_squares(pos: Position) -> (r: Vec<Position>)
    requires
        pos.is_on_board(),
    ensures
        r@ == Piece::king_squares(pos),
{
    let mut r: Vec<Position> = Vec::new();
    r.push(pos.next_left());
    r.push(pos.next_right());
    r.push(pos.next_above());
    r.push(pos.next_below());
    r.push(pos.next_left().next_above());
    r.push(pos.next_left().next_below());
    r.push(pos.next_right().next_above());
    r.push(pos.next_right().next_below());
    assert(r@ =~= Piece::king_squares(pos));
    r
}

/// The eight squares a knight's jump from `pos`.
fn knight_squares(pos: Position) -> (r: Vec<Position>)
    requires
        pos.is_on_board(),
    ensures
        r@ == Piece::knight_squares(pos),
{
    let mut r: Vec<Position> = Vec::new();
    r.push(pos.next_left().next_left().next_above());
    r.push(pos.next_left().next_above().next_above());
    r.push(pos.next_left().next_left().next_below());
    r.push(pos.next_left().next_below().next_below());
    r.push(pos.next_right().next_right().next_above());
    r.push(pos.next_right().next_above().next_above());
    r.push(pos.next_right().next_right().next_below());
    r.push(pos.next_right().next_below().next_below());
    assert(r@ =~= Piece::knight_squares(pos));
    r
}

/// The squares of the column of `pos`.
fn column_squares(pos: Position) -> (r: Vec<Position>)
    ensures
        r@ == Piece::column_squares(pos),
{
    let mut r: Vec<Position> = Vec::new();
    let mut row: i32 = 0;
    while row < 8
        invariant
            0 <= row <= 8,
            r@ == Seq::new(row as nat, |i: int| Position { row: i as i32, col: pos.col }),
        decreases 8 - row,
    {
        r.push(Position::new(row, pos.get_col()));
        row = row + 1;
    }
    r
}

/// The squares of the row of `pos`.
fn row_squares(pos: Position) -> (r: Vec<Position>)
    ensures
        r@ == Piece::row_squares(pos),
{
    let mut r: Vec<Position> = Vec::new();
    let mut col: i32 = 0;
    while col < 8
        invariant
            0 <= col <= 8,
            r@ == Seq::new(col as nat, |i: int| Position { row: pos.row, col: i as i32 }),
        decreases 8 - col,
    {
        r.push(Position::new(pos.get_row(), col));
        col = col + 1;
    }
    r
}

/// The 64 squares, rank by rank from rank 1 up.
fn all_squares() -> (r: Vec<Position>)
    ensures
        r@ == Piece::all_squares(),
{
    let mut r: Vec<Position> = Vec::new();
    let mut i: i32 = 0;
    while i < 64
        invariant
            0 <= i <= 64,
            r@ == Seq::new(
                i as nat,
                |i: int| Position { row: (i / 8) as i32, col: (i % 8) as i32 },
            ),
        decreases 64 - i,
    {
        r.push(Position::new(i / 8, i % 8));
        i = i + 1;
    }
    r
}

/// Those of `squares`, other than `pos`, that hold no piece of `color`.
fn keep_free(squares: &Vec<Position>, color: Color, pos: Position, board: &Board) -> (r: Vec<
    Position,
>)
    ensures
        r@ == squares@.filter(Piece::is_free_for(color, pos, board@)),
{
    let ghost pred = Piece::is_free_for(color, pos, board@);
    let mut r: Vec<Position> = Vec::new();
    let mut i: usize = 0;
    assert(squares@.take(0).filter(pred) =~= Seq::<Position>::empty()) by {
        reveal(Seq::filter);
    }
    while i < squares.len()
        invariant
            0 <= i <= squares.len(),
            pred == Piece::is_free_for(color, pos, board@),
            r@ == squares@.take(i as int).filter(pred),
        decreases squares.len() - i,
    {
        let to = squares[i];
        proof {
            assert(squares@.take(i + 1) =~= squares@.take(i as int).push(to));
            squares@.take(i as int).lemma_filter_push(to, pred);
        }
        if to != pos && !board.has_ally_piece(to, color) {
            r.push(to);
        }
        i = i + 1;
    }
    assert(squares@.take(squares.len() as int) =~= squares@);
    r
}

/// Those of `squares` that lie on the board and hold no piece of `color`.
fn keep_open(squares: &Vec<Position>, color: Color, board: &Board) -> (r: Vec<Position>)
    ensures
        r@ == squares@.filter(Piece::is_open_to(color, board@)),
{
    let ghost pred = Piece::is_open_to(color, board@);
    let mut r: Vec<Position> = Vec::new();
    let mut i: usize = 0;
    assert(squares@.take(0).filter(pred) =~= Seq::<Position>::empty()) by {
        reveal(Seq::filter);
    }
    while i < squares.len()
        invariant
            0 <= i <= squares.len(),
            pred == Piece::is_open_to(color, board@),
            r@ == squares@.take(i as int).filter(pred),
        decreases squares.len() - i,
    {
        let to = squares[i];
        proof {
            assert(squares@.take(i + 1) =~= squares@.take(i as int).push(to));
            squares@.take(i as int).lemma_filter_push(to, pred);
        }
        if to.is_on_board() && !board.has_ally_piece(to, color) {
            r.push(to);
        }
        i = i + 1;
    }
    assert(squares@.take(squares.len() as int) =~= squares@);
    r
}

/// Those of `squares`, other than `pos` and on a diagonal of it, that hold
/// no piece of `color`.
fn keep_free_diagonal(squares: &Vec<Position>, color: Color, pos: Position, board: &Board) -> (r:
    Vec<Position>)
    ensures
        r@ == squares@.filter(Piece::is_free_diagonal_for(color, pos, board@)),
{
    let ghost pred = Piece::is_free_diagonal_for(color, pos, board@);
    let mut r: Vec<Position> = Vec::new();
    let mut i: usize = 0;
    assert(squares@.take(0).filter(pred) =~= Seq::<Position>::empty()) by {
        reveal(Seq::filter);
    }
    while i < squares.len()
        invariant
            0 <= i <= squares.len(),
            pred == Piece::is_free_diagonal_for(color, pos, board@),
            r@ == squares@.take(i as int).filter(pred),
        decreases squares.len() - i,
    {
        let to = squares[i];
        proof {
            assert(squares@.take(i + 1) =~= squares@.take(i as int).push(to));
            squares@.take(i as int).lemma_filter_push(to, pred);
        }
        if to != pos && !board.has_ally_piece(to, color) && to.is_diagonal_to(pos) {
            r.push(to);
        }
        i = i + 1;
    }
    assert(squares@.take(squares.len() as int) =~= squares@);
    r
}

/// The squares that a rook of `color` on `pos` may try.
fn straight_targets(color: Color, pos: Position, board: &Board) -> (r: Vec<Position>)
    ensures
        r@ == Piece::straight_targets(color, pos, board@),
{
    let mut r = keep_free(&column_squares(pos), color, pos, board);
    let mut along_row = keep_free(&row_squares(pos), color, pos, board);
    r.append(&mut along_row);
    r
}

/// The squares that a bishop of `color` on `pos` may try.
fn diagonal_targets(color: Color, pos: Position, board: &Board) -> (r: Vec<Position>)
    ensures
        r@ == Piece::diagonal_targets(color, pos, board@),
{
    keep_free_diagonal(&all_squares(), color, pos, board)
}

/// The squares that a pawn of `color` on `pos` may try.
fn pawn_targets(color: Color, pos: Position, board: &Board) -> (r: Vec<Position>)
    requires
        pos.is_on_board(),
    ensures
        r@ == Piece::pawn_targets(color, pos, board@),
{
    let up = pos.pawn_up(color);
    let next_up = up.pawn_up(color);
    let up_left = up.next_left();
    let up_right = up.next_right();
    let mut r: Vec<Position> = Vec::new();
    if let Some(en_passant) = board.get_en_passant() {
        if en_passant == up_left || en_passant == up_right {
            r.push(en_passant);
        }
    }
    let ghost first = r@;
    if next_up.is_on_board() && pos.is_starting_pawn(color) && board.has_no_piece(up)
        && board.has_no_piece(next_up) {
        r.push(next_up);
    }
    let ghost second = r@;
    if up.is_on_board() && board.has_no_piece(up) {
        r.push(up);
    }
    let ghost third = r@;
    if up_left.is_on_board() && board.has_enemy_piece(up_left, color) {
        r.push(up_left);
    }
    let ghost fourth = r@;
    if up_right.is_on_board() && board.has_enemy_piece(up_right, color) {
        r.push(up_right);
    }
    proof {
        let a = only_if(
            board@.en_passant matches Some(en_passant) && (en_passant == up_left || en_passant
                == up_right),
            board@.en_passant->0,
        );
        let b = only_if(
            next_up.is_on_board() && pos.spec_is_starting_pawn(color) && board@.has_no_piece(up)
                && board@.has_no_piece(next_up),
            next_up,
        );
        let c = only_if(up.is_on_board() && board@.has_no_piece(up), up);
        let d = only_if(up_left.is_on_board() && board@.has_enemy_piece(up_left, color), up_left);
        let e = only_if(
            up_right.is_on_board() && board@.has_enemy_piece(up_right, color),
            up_right,
        );
        assert(first =~= a);
        assert(second =~= a + b);
        assert(third =~= a + b + c);
        assert(fourth =~= a + b + c + d);
        assert(r@ =~= a + b + c + d + e);
    }
    r
}

impl Piece {
    /// The squares that this piece, standing on the board, may try to go to
    /// by the pattern of its kind.
    fn collect_targets(&self, board: &Board) -> (r: Vec<Position>)
        requires
            self.spec_get_pos().is_on_board(),
        ensures
            r@ == self.targets(board@),
    {
        match *self {
            Piece::Pawn(color, pos) => pawn_targets(color, pos, board),
            Piece::King(color, pos) => keep_open(&king_squares(pos), color, board),
            Piece::Queen(color, pos) => {
                let mut r = straight_targets(color, pos, board);
                let mut diagonal = diagonal_targets(color, pos, board);
                r.append(&mut diagonal);
                r
            },
            Piece::Rook(color, pos) => straight_targets(color, pos, board),
            Piece::Bishop(color, pos) => diagonal_targets(color, pos, board),
            Piece::Knight(color, pos) => keep_open(&knight_squares(pos), color, board),
        }
    }

    /// The legal moves of this piece on `board`: no step among them leaves
    /// the king of the piece's side in check.
    pub fn get_legal_moves(&self, board: &Board) -> (r: Vec<Move>)
        ensures
            r@ == self.spec_get_legal_moves(board@),
            forall|i: int|
                0 <= i < r@.len() && (#[trigger] r@[i]) is Piece ==> !board@.apply_move(
                    r@[i],
                ).is_in_check(self.spec_get_color()),
    {
        let pos = self.get_pos();
        let color = self.get_color();
        let ghost keeps = board@.keeps(pos, color);
        let ghost step = Piece::step_from(pos);
        let mut r: Vec<Move> = Vec::new();
        if pos.is_on_board() {
            let targets = self.collect_targets(board);
            let mut i: usize = 0;
            assert(targets@.take(0).filter(keeps).map_values(step) =~= Seq::<Move>::empty()) by {
                reveal(Seq::filter);
            }
            while i < targets.len()
                invariant
                    0 <= i <= targets.len(),
                    keeps == board@.keeps(pos, color),
                    step == Piece::step_from(pos),
                    r@ == targets@.take(i as int).filter(keeps).map_values(step),
                decreases targets.len() - i,
            {
                let to = targets[i];
                proof {
                    let before = targets@.take(i as int);
                    assert(targets@.take(i + 1) =~= before.push(to));
                    before.lemma_filter_push(to, keeps);
                    assert(before.filter(keeps).push(to).map_values(step) =~= before.filter(
                        keeps,
                    ).map_values(step).push(Move::Piece(pos, to)));
                }
                if to.is_on_board() && board.is_legal_move(Move::Piece(pos, to), color) {
                    r.push(Move::Piece(pos, to));
                }
                i = i + 1;
            }
            assert(targets@.take(targets.len() as int) =~= targets@);
        }
        let ghost steps = r@;
        if let Piece::King(king_color, _) = *self {
            if board.can_kingside_castle(king_color) {
                r.push(Move::KingSideCastle);
            }
            let ghost with_kingside = r@;
            if board.can_queenside_castle(king_color) {
                r.push(Move::QueenSideCastle);
            }
            proof {
                let a = only_if(board@.can_kingside_castle(king_color), Move::KingSideCastle);
                let b = only_if(board@.can_queenside_castle(king_color), Move::QueenSideCastle);
                assert(with_kingside =~= steps + a);
                assert(r@ =~= steps + (a + b));
            }
        } else {
            assert(r@ =~= steps + Seq::<Move>::empty());
        }
        proof {
            lemma_legal_moves_keep_king_safe(*self, board@);
        }
        r
    }
}

/// No step among the legal moves of a piece leaves the king of its side in
/// check, and every castling among them is one that the board allows.
pub proof fn lemma_legal_moves_keep_king_safe(piece: Piece, board: BoardView)
    ensures
        forall|i: int|
            0 <= i < piece.spec_get_legal_moves(board).len() ==> match (
            #[trigger] piece.spec_get_legal_moves(board)[i]) {
                Move::Piece(from, to) => from == piece.spec_get_pos() && board.is_legal_move(
                    Move::Piece(from, to),
                    piece.spec_get_color(),
                ) && !board.apply_move(Move::Piece(from, to)).is_in_check(piece.spec_get_color()),
                Move::KingSideCastle => piece.spec_is_king() && board.can_kingside_castle(
                    piece.spec_get_color(),
                ),
                Move::QueenSideCastle => piece.spec_is_king() && board.can_queenside_castle(
                    piece.spec_get_color(),
                ),
                _ => false,
            },
{
    let pos = piece.spec_get_pos();
    let color = piece.spec_get_color();
    let moves = piece.spec_get_legal_moves(board);
    let kept = piece.targets(board).filter(board.keeps(pos, color));
    assert forall|i: int| 0 <= i < moves.len() implies match (#[trigger] moves[i]) {
        Move::Piece(from, to) => from == pos && board.is_legal_move(Move::Piece(from, to), color)
            && !board.apply_move(Move::Piece(from, to)).is_in_check(color),
        Move::KingSideCastle => piece.spec_is_king() && board.can_kingside_castle(color),
        Move::QueenSideCastle => piece.spec_is_king() && board.can_queenside_castle(color),
        _ => false,
    } by {
        if pos.is_on_board() && i < kept.len() {
            piece.targets(board).lemma_filter_pred(board.keeps(pos, color), i);
            assert(moves[i] == Move::Piece(pos, kept[i]));
        }
    }
}

} // verus!
