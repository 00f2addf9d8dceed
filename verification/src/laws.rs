//! What the rules imply: theorems about the definitions of [`crate::model`],
//! each proved for every board.

use crate::board::CastlingRights;
use crate::game::Move;
use crate::model::BoardView;
use crate::piece::{gap, Color, Piece, Position};
use vstd::prelude::*;

verus! {

/// Moving a piece leaves the board well formed.
pub proof fn law_move_piece_keeps_board_well_formed(
    board: BoardView,
    from: Position,
    to: Position,
    promotion: Option<Piece>,
)
    requires
        board.wf(),
    ensures
        board.move_piece(from, to, promotion).wf(),
{
}

/// Every move leaves the board well formed.
pub proof fn law_move_keeps_board_well_formed(board: BoardView, m: Move)
    requires
        board.wf(),
    ensures
        board.apply_move(m).wf(),
{
    match m {
        Move::KingSideCastle => lemma_castle_keeps_board_well_formed(board, 6, 7, 5),
        Move::QueenSideCastle => lemma_castle_keeps_board_well_formed(board, 2, 0, 3),
        Move::Piece(from, to) => {
            law_move_piece_keeps_board_well_formed(board, from, to, None);
        },
        Move::Promotion(from, to, promotion) => {
            law_move_piece_keeps_board_well_formed(board, from, to, Some(promotion));
        },
        Move::Resign => {},
    }
}

proof fn lemma_castle_keeps_board_well_formed(
    board: BoardView,
    king_col: int,
    rook_from: int,
    rook_to: int,
)
    requires
        board.wf(),
    ensures
        board.castle(king_col, rook_from, rook_to).wf(),
{
    let row = board.turn.home_row() as i32;
    if let Some(king_pos) = board.king_pos(board.turn) {
        let king_to = Position { row, col: king_col as i32 };
        law_move_piece_keeps_board_well_formed(board, king_pos, king_to, None);
        law_move_piece_keeps_board_well_formed(
            board.move_piece(king_pos, king_to, None),
            Position { row, col: rook_from as i32 },
            Position { row, col: rook_to as i32 },
            None,
        );
    }
}

/// A piece that is moved arrives: after `move_piece(from, to, None)` the
/// square `to` holds a piece of the side that stood on `from`, and of the
/// same kind, but that a pawn which reaches the first or the last rank has
/// become a queen.
pub proof fn law_moved_piece_arrives(board: BoardView, from: Position, to: Position)
    requires
        board.wf(),
        from.is_on_board(),
        to.is_on_board(),
        board.piece_at(from) is Some,
    ensures
        ({
            let piece = board.piece_at(from)->0;
            let arrived = board.move_piece(from, to, None).piece_at(to);
            &&& arrived is Some
            &&& arrived->0.spec_get_color() == piece.spec_get_color()
            &&& arrived->0.spec_get_pos() == to
            &&& if piece.spec_is_pawn() && (to.row == 0 || to.row == 7) {
                arrived->0.spec_is_queen()
            } else {
                arrived->0.same_kind(piece)
            }
        }),
{
}

/// The en-passant target is set by a pawn's advance of two rows from its
/// starting rank, to the square that the pawn has passed over, and by
/// nothing else: every other move leaves the board without a target.
pub proof fn law_en_passant_follows_double_advance(board: BoardView, m: Move)
    requires
        board.wf(),
    ensures
        match m {
            Move::Piece(from, to) | Move::Promotion(from, to, _) => {
                let advance = from.is_on_board() && to.is_on_board() && board.piece_at(from) is Some
                    && board.piece_at(from)->0.spec_is_starting_pawn() && gap(
                    from.row as int,
                    to.row as int,
                ) == 2;
                board.apply_move(m).en_passant == if advance {
                    Some(
                        Position {
                            row: (to.row - board.piece_at(from)->0.spec_get_color().forward()) as i32,
                            col: to.col,
                        },
                    )
                } else {
                    None
                }
            },
            _ => board.apply_move(m).en_passant is None,
        },
{
}

/// Castling on the king's side is allowed only where the two squares
/// between king and rook are empty, the rook stands on its home square, the
/// right has not been lost, the king is not in check, and none of the
/// king's home square and the two squares it crosses is attacked.
pub proof fn law_kingside_castling_needs(board: BoardView, color: Color)
    requires
        board.can_kingside_castle(color),
    ensures
        ({
            let row = color.home_row() as i32;
            &&& board.piece_at(Position { row, col: 5 }) is None
            &&& board.piece_at(Position { row, col: 6 }) is None
            &&& board.piece_at(Position { row, col: 7 }) == Some(
                Piece::Rook(color, Position { row, col: 7 }),
            )
            &&& board.castling_rights(color).kingside
            &&& !board.is_in_check(color)
            &&& !board.is_threatened(Position { row, col: 4 }, color)
            &&& !board.is_threatened(Position { row, col: 5 }, color)
            &&& !board.is_threatened(Position { row, col: 6 }, color)
        }),
{
}

/// Castling on the queen's side is allowed only where the three squares
/// between king and rook are empty, the rook stands on its home square, the
/// right has not been lost, the king is not in check, and none of the
/// king's home square and the two squares it crosses is attacked.
pub proof fn law_queenside_castling_needs(board: BoardView, color: Color)
    requires
        board.can_queenside_castle(color),
    ensures
        ({
            let row = color.home_row() as i32;
            &&& board.piece_at(Position { row, col: 1 }) is None
            &&& board.piece_at(Position { row, col: 2 }) is None
            &&& board.piece_at(Position { row, col: 3 }) is None
            &&& board.piece_at(Position { row, col: 0 }) == Some(
                Piece::Rook(color, Position { row, col: 0 }),
            )
            &&& board.castling_rights(color).queenside
            &&& !board.is_in_check(color)
            &&& !board.is_threatened(Position { row, col: 4 }, color)
            &&& !board.is_threatened(Position { row, col: 3 }, color)
            &&& !board.is_threatened(Position { row, col: 2 }, color)
        }),
{
}

/// No move gives a castling right back.
pub proof fn law_move_never_restores_castling_rights(board: BoardView, m: Move, color: Color)
    ensures
        board.apply_move(m).castling_rights(color).kingside ==> board.castling_rights(
            color,
        ).kingside,
        board.apply_move(m).castling_rights(color).queenside ==> board.castling_rights(
            color,
        ).queenside,
{
    match m {
        Move::KingSideCastle => lemma_castle_never_restores_rights(board, 6, 7, 5, color),
        Move::QueenSideCastle => lemma_castle_never_restores_rights(board, 2, 0, 3, color),
        _ => {},
    }
}

proof fn lemma_castle_never_restores_rights(
    board: BoardView,
    king_col: int,
    rook_from: int,
    rook_to: int,
    color: Color,
)
    ensures
        board.castle(king_col, rook_from, rook_to).castling_rights(color).kingside
            ==> board.castling_rights(color).kingside,
        board.castle(king_col, rook_from, rook_to).castling_rights(color).queenside
            ==> board.castling_rights(color).queenside,
{
}

/// A castling right that is lost stays lost, whatever moves follow.
pub proof fn law_castling_rights_never_return(board: BoardView, moves: Seq<Move>, color: Color)
    ensures
        board.apply_moves(moves).castling_rights(color).kingside ==> board.castling_rights(
            color,
        ).kingside,
        board.apply_moves(moves).castling_rights(color).queenside ==> board.castling_rights(
            color,
        ).queenside,
        !board.castling_rights(color).kingside ==> !board.apply_moves(moves).can_kingside_castle(
            color,
        ),
        !board.castling_rights(color).queenside ==> !board.apply_moves(
            moves,
        ).can_queenside_castle(color),
    decreases moves.len(),
{
    if moves.len() > 0 {
        law_castling_rights_never_return(board, moves.drop_last(), color);
        law_move_never_restores_castling_rights(
            board.apply_moves(moves.drop_last()),
            moves.last(),
            color,
        );
    }
}

/// Once a king has moved, its side never castles again: not after the
/// move, and not after any moves that follow it.
pub proof fn law_king_move_ends_castling(
    board: BoardView,
    from: Position,
    to: Position,
    later: Seq<Move>,
)
    requires
        board.wf(),
        from.is_on_board(),
        to.is_on_board(),
        board.piece_at(from) is Some,
        board.piece_at(from)->0.spec_is_king(),
    ensures
        ({
            let color = board.piece_at(from)->0.spec_get_color();
            let after = board.apply_move(Move::Piece(from, to)).apply_moves(later);
            !after.can_kingside_castle(color) && !after.can_queenside_castle(color)
        }),
{
    let color = board.piece_at(from)->0.spec_get_color();
    law_castling_rights_never_return(board.apply_move(Move::Piece(from, to)), later, color);
}

/// Once the rook has left its home square on the king's side, its side
/// never castles on that side again; and so for the queen's side.
pub proof fn law_rook_move_ends_castling(
    board: BoardView,
    from: Position,
    to: Position,
    later: Seq<Move>,
)
    requires
        board.wf(),
        from.is_on_board(),
        to.is_on_board(),
        board.piece_at(from) is Some,
        board.piece_at(from)->0.spec_is_rook(),
    ensures
        ({
            let color = board.piece_at(from)->0.spec_get_color();
            let after = board.apply_move(Move::Piece(from, to)).apply_moves(later);
            &&& from.spec_is_kingside_rook() ==> !after.can_kingside_castle(color)
            &&& from.spec_is_queenside_rook() ==> !after.can_queenside_castle(color)
        }),
{
    let color = board.piece_at(from)->0.spec_get_color();
    law_castling_rights_never_return(board.apply_move(Move::Piece(from, to)), later, color);
}

/// What [`BoardView::king_pos_among`] finds is a king of the side, the one
/// that is stored last among the first `n` squares; and it finds one if
/// there is any.
proof fn lemma_king_pos_among(board: BoardView, color: Color, n: int)
    requires
        board.wf(),
        0 <= n <= 64,
    ensures
        match board.king_pos_among(color, n) {
            Some(king_pos) => board.has_king(king_pos, color) && king_pos.is_on_board(),
            None => forall|p: Position|
                p.is_on_board() && BoardView::square_index(p) < n ==> !#[trigger] board.has_king(
                    p,
                    color,
                ),
        },
    decreases n,
{
    if n > 0 {
        lemma_king_pos_among(board, color, n - 1);
        crate::board::lemma_square_pos(n - 1);
        let last = BoardView::square_pos(n - 1);
        if board.king_pos_among(color, n) is None {
            assert forall|p: Position|
                p.is_on_board() && BoardView::square_index(p) < n implies !#[trigger] board.has_king(
                p,
                color,
            ) by {
                if BoardView::square_index(p) == n - 1 {
                    crate::board::lemma_square_index(p);
                    assert(p == last);
                }
            }
        }
    }
}

/// The king that [`BoardView::king_pos`] finds stands where it says; and
/// where the side has one king, it is the one found.
pub proof fn lemma_king_pos(board: BoardView, color: Color)
    requires
        board.wf(),
    ensures
        match board.king_pos(color) {
            Some(king_pos) => board.has_king(king_pos, color) && king_pos.is_on_board(),
            None => forall|p: Position| !#[trigger] board.has_king(p, color),
        },
        board.has_one_king_at_most(color) ==> forall|p: Position| #[trigger]
            board.has_king(p, color) ==> board.king_pos(color) == Some(p),
{
    lemma_king_pos_among(board, color, 64);
    if board.king_pos(color) is None {
        assert forall|p: Position| !#[trigger] board.has_king(p, color) by {
            if board.has_king(p, color) {
                crate::board::lemma_square_index(p);
            }
        }
    }
}

/// Where a side castles, no piece attacks the square on which its king
/// lands that did not attack that square, or the king, before.
proof fn lemma_castling_opens_no_attack(
    board: BoardView,
    after: BoardView,
    king_pos: Position,
    king_to: Position,
    rook_from: Position,
    rook_to: Position,
    from: Position,
)
    requires
        board.wf(),
        king_pos.is_on_board(),
        board.has_king(king_pos, board.turn),
        king_to.row == board.turn.home_row(),
        rook_from.row == king_to.row,
        rook_to.row == king_to.row,
        (king_to.col == 6 && rook_from.col == 7 && rook_to.col == 5) || (king_to.col == 2
            && rook_from.col == 0 && rook_to.col == 3),
        board.piece_at(king_to) is None,
        board.piece_at(rook_to) is None,
        board.piece_at(rook_from) == Some(Piece::Rook(board.turn, rook_from)),
        !board.is_threatened(king_to, board.turn),
        !board.is_threatened(king_pos, board.turn),
        after.pieces == board.pieces.remove(king_pos).insert(
            king_to,
            Piece::King(board.turn, king_to),
        ).remove(rook_from).insert(rook_to, Piece::Rook(board.turn, rook_to)),
    ensures
        !after.is_attacked_from(from, king_to, board.turn),
{
    let color = board.turn;
    if after.is_attacked_from(from, king_to, color) {
        let piece = after.piece_at(from)->0;
        assert(from != king_to && from != rook_to && from != king_pos && from != rook_from);
        assert(board.piece_at(from) == Some(piece));
        assert(piece.spec_get_pos() == from);
        assert(!board.is_attacked_from(from, king_to, color));
        assert(!board.is_attacked_from(from, king_pos, color));
        assert(piece.spec_is_legal_attack(king_to, after));
        assert(!piece.spec_is_legal_attack(king_to, board));
        assert(after.path_is_clear(from, king_to));
        assert(!board.path_is_clear(from, king_to));
        let k = choose|k: int|
            0 < k < from.distance(king_to) && board.piece_at(
                #[trigger] from.step_toward(king_to, k),
            ) is Some;
        let blocker = from.step_toward(king_to, k);
        assert(after.piece_at(blocker) is None);
        assert(blocker != rook_from);
        assert(blocker == king_pos);
        assert(from.distance(king_pos) == k);
        assert forall|j: int| 0 < j < k implies board.piece_at(
            #[trigger] from.step_toward(king_pos, j),
        ) is None by {
            let passed = from.step_toward(king_to, j);
            assert(from.step_toward(king_pos, j) == passed);
            assert(after.piece_at(passed) is None);
            assert(passed != king_pos);
            assert(passed != rook_from);
        }
        assert(board.path_is_clear(from, king_pos));
        assert(piece.spec_is_legal_attack(king_pos, board));
        assert(board.is_attacked_from(from, king_pos, color));
    }
}

/// Castling does not leave the king in check.
proof fn lemma_castling_keeps_king_safe(board: BoardView, m: Move)
    requires
        board.wf(),
        board.has_one_king_at_most(board.turn),
        (m == Move::KingSideCastle && board.can_kingside_castle(board.turn)) || (m
            == Move::QueenSideCastle && board.can_queenside_castle(board.turn)),
    ensures
        !board.apply_move(m).is_in_check(board.turn),
{
    let color = board.turn;
    let row = color.home_row() as i32;
    let kingside = m == Move::KingSideCastle;
    let king_to = Position { row, col: if kingside { 6i32 } else { 2i32 } };
    let rook_from = Position { row, col: if kingside { 7i32 } else { 0i32 } };
    let rook_to = Position { row, col: if kingside { 5i32 } else { 3i32 } };
    let after = board.apply_move(m);
    lemma_king_pos(board, color);
    law_move_keeps_board_well_formed(board, m);
    lemma_king_pos(after, color);
    match board.king_pos(color) {
        None => {
            assert(after.pieces == board.pieces);
            if let Some(found) = after.king_pos(color) {
                assert(after.has_king(found, color));
                assert(board.has_king(found, color));
            }
        },
        Some(king_pos) => {
            let king = Piece::King(color, king_pos);
            assert(board.has_king(king_pos, color));
            assert(board.piece_at(king_pos) == Some(king));
            let first = board.move_piece(king_pos, king_to, None);
            assert(first.pieces == board.pieces.remove(king_pos).insert(
                king_to,
                Piece::King(color, king_to),
            ));
            assert(first.piece_at(rook_from) == Some(Piece::Rook(color, rook_from)));
            let second = first.move_piece(rook_from, rook_to, None);
            assert(second.pieces == first.pieces.remove(rook_from).insert(
                rook_to,
                Piece::Rook(color, rook_to),
            ));
            assert(after.pieces == second.pieces);
            assert(after.has_king(king_to, color));
            assert forall|p: Position, q: Position| #[trigger]
                after.has_king(p, color) && #[trigger] after.has_king(q, color) implies p == q by {
                if p != king_to {
                    assert(board.has_king(p, color));
                }
                if q != king_to {
                    assert(board.has_king(q, color));
                }
            }
            assert(after.king_pos(color) == Some(king_to));
            assert forall|from: Position| !after.is_attacked_from(from, king_to, color) by {
                lemma_castling_opens_no_attack(
                    board,
                    after,
                    king_pos,
                    king_to,
                    rook_from,
                    rook_to,
                    from,
                );
            }
        },
    }
}

/// No legal move of a piece leaves the king of its side in check: no step,
/// on any board; and no castling, on a board on which it is the piece's
/// side that moves and that side has one king.
pub proof fn law_legal_moves_never_expose_king(piece: Piece, board: BoardView, i: int)
    requires
        board.wf(),
        0 <= i < piece.spec_get_legal_moves(board).len(),
        piece.spec_get_legal_moves(board)[i] is Piece || (board.turn == piece.spec_get_color()
            && board.has_one_king_at_most(board.turn)),
    ensures
        !board.apply_move(piece.spec_get_legal_moves(board)[i]).is_in_check(
            piece.spec_get_color(),
        ),
{
    crate::movegen::lemma_legal_moves_keep_king_safe(piece, board);
    let m = piece.spec_get_legal_moves(board)[i];
    if !(m is Piece) {
        lemma_castling_keeps_king_safe(board, m);
    }
}

/// The count over a rank is the count over the ranks stored before it
/// plus the count of the eight squares of the rank.
proof fn lemma_count_rank(board: BoardView, code: u8, first: int)
    requires
        0 <= first,
    ensures
        board.count_among(code, first + 8) == board.count_among(code, first) + ({
            let hit = |i: int|
                if BoardView::square_code(board.piece_at(BoardView::square_pos(i))) == code {
                    1int
                } else {
                    0int
                };
            hit(first) + hit(first + 1) + hit(first + 2) + hit(first + 3) + hit(first + 4) + hit(
                first + 5,
            ) + hit(first + 6) + hit(first + 7)
        }),
{
    reveal_with_fuel(BoardView::count_among, 9);
}

/// The number of squares of the starting position that hold the content
/// with the code `code`.
proof fn lemma_initial_count(code: u8) -> (n: int)
    ensures
        n == BoardView::initial().count(code),
        n == if code == 0 {
            32int
        } else if code == 1 || code == 7 {
            8
        } else if code == 2 || code == 3 || code == 4 || code == 8 || code == 9 || code == 10 {
            2
        } else if code == 5 || code == 6 || code == 11 || code == 12 {
            1
        } else {
            0
        },
{
    let board = BoardView::initial();
    lemma_count_rank(board, code, 0);
    lemma_count_rank(board, code, 8);
    lemma_count_rank(board, code, 16);
    lemma_count_rank(board, code, 24);
    lemma_count_rank(board, code, 32);
    lemma_count_rank(board, code, 40);
    lemma_count_rank(board, code, 48);
    lemma_count_rank(board, code, 56);
    assert(board.count_among(code, 0) == 0);
    board.count(code)
}

/// A game starts with sixteen pawns, four rooks, four knights, four
/// bishops, two queens and two kings, half of each for either side, with
/// White to move, every castling right set and no en-passant target.
pub proof fn law_starting_position_is_complete()
    ensures
        BoardView::initial().wf(),
        BoardView::initial().count(1) == 8 && BoardView::initial().count(7) == 8,
        BoardView::initial().count(2) == 2 && BoardView::initial().count(8) == 2,
        BoardView::initial().count(3) == 2 && BoardView::initial().count(9) == 2,
        BoardView::initial().count(4) == 2 && BoardView::initial().count(10) == 2,
        BoardView::initial().count(5) == 1 && BoardView::initial().count(11) == 1,
        BoardView::initial().count(6) == 1 && BoardView::initial().count(12) == 1,
        BoardView::initial().count(0) == 32,
        BoardView::initial().turn == Color::White,
        BoardView::initial().en_passant is None,
        BoardView::initial().white_castling_rights == (CastlingRights {
            kingside: true,
            queenside: true,
        }),
        BoardView::initial().black_castling_rights == (CastlingRights {
            kingside: true,
            queenside: true,
        }),
{
    lemma_initial_count(0);
    lemma_initial_count(1);
    lemma_initial_count(2);
    lemma_initial_count(3);
    lemma_initial_count(4);
    lemma_initial_count(5);
    lemma_initial_count(6);
    lemma_initial_count(7);
    lemma_initial_count(8);
    lemma_initial_count(9);
    lemma_initial_count(10);
    lemma_initial_count(11);
    lemma_initial_count(12);
}

/// Where a pawn has just advanced two rows, an opposing pawn beside it may
/// take it in passing: the move to the square passed over is legal if it
/// does not expose the capturer's king, and it takes the advanced pawn off
/// the board.
pub proof fn law_en_passant_capture(board: BoardView, from: Position, to: Position)
    requires
        board.wf(),
        from.is_on_board(),
        to.is_on_board(),
        board.piece_at(from) is Some,
        board.piece_at(from)->0.spec_is_pawn(),
        board.is_en_passant_capture(board.piece_at(from)->0.spec_get_color(), from, to),
    ensures
        ({
            let color = board.piece_at(from)->0.spec_get_color();
            let after = board.apply_move(Move::Piece(from, to));
            &&& board.is_legal_move(Move::Piece(from, to), color) == !after.is_in_check(color)
            &&& 0 < to.row < 7 ==> after.piece_at(to) == Some(Piece::Pawn(color, to))
            &&& after.piece_at(Position { row: from.row, col: to.col }) is None
            &&& after.piece_at(from) is None
            &&& after.en_passant is None
        }),
{
}

/// What is in one of two sequences is in the two joined.
proof fn lemma_contains_joined<A>(a: Seq<A>, b: Seq<A>, x: A)
    requires
        a.contains(x) || b.contains(x),
    ensures
        (a + b).contains(x),
{
    if a.contains(x) {
        let i = choose|i: int| 0 <= i < a.len() && a[i] == x;
        assert((a + b)[i] == x);
    } else {
        let i = choose|i: int| 0 <= i < b.len() && b[i] == x;
        assert((a + b)[a.len() + i] == x);
    }
}

/// What stands in a sequence and passes the test stands among those kept.
proof fn lemma_kept<A>(s: Seq<A>, pred: spec_fn(A) -> bool, i: int)
    requires
        0 <= i < s.len(),
        pred(s[i]),
    ensures
        s.filter(pred).contains(s[i]),
{
    s.lemma_filter_contains(pred, i);
}

/// A square to which the rule of its kind lets a piece go is one of the
/// squares that the piece tries.
proof fn lemma_targets_hold_every_destination(piece: Piece, to: Position, board: BoardView)
    requires
        board.wf(),
        piece.spec_get_pos().is_on_board(),
        board.piece_at(piece.spec_get_pos()) == Some(piece),
        piece.spec_is_legal_move(to, board) || (piece.spec_is_pawn()
            && board.is_en_passant_capture(piece.spec_get_color(), piece.spec_get_pos(), to)),
    ensures
        piece.targets(board).contains(to),
{
    let pos = piece.spec_get_pos();
    let color = piece.spec_get_color();
    match piece {
        Piece::Pawn(_, _) => {
            let forward = color.forward();
            let up = pos.offset(forward, 0);
            let next_up = pos.offset(2 * forward, 0);
            let up_left = pos.offset(forward, -1);
            let up_right = pos.offset(forward, 1);
            let a = crate::model::only_if(
                board.en_passant matches Some(en_passant) && (en_passant == up_left
                    || en_passant == up_right),
                board.en_passant->0,
            );
            let b = crate::model::only_if(
                next_up.is_on_board() && pos.spec_is_starting_pawn(color) && board.has_no_piece(up)
                    && board.has_no_piece(next_up),
                next_up,
            );
            let c = crate::model::only_if(up.is_on_board() && board.has_no_piece(up), up);
            let d = crate::model::only_if(
                up_left.is_on_board() && board.has_enemy_piece(up_left, color),
                up_left,
            );
            let e = crate::model::only_if(
                up_right.is_on_board() && board.has_enemy_piece(up_right, color),
                up_right,
            );
            assert(piece.targets(board) == a + b + c + d + e);
            if a.len() > 0 && a[0] == to {
                assert(a.contains(to));
            } else if b.len() > 0 && b[0] == to {
                assert(b.contains(to));
            } else if c.len() > 0 && c[0] == to {
                assert(c.contains(to));
            } else if d.len() > 0 && d[0] == to {
                assert(d.contains(to));
            } else {
                assert(e.len() > 0 && e[0] == to);
                assert(e.contains(to));
            }
            if a.contains(to) || b.contains(to) {
                lemma_contains_joined(a, b, to);
            }
            if (a + b).contains(to) || c.contains(to) {
                lemma_contains_joined(a + b, c, to);
            }
            if (a + b + c).contains(to) || d.contains(to) {
                lemma_contains_joined(a + b + c, d, to);
            }
            lemma_contains_joined(a + b + c + d, e, to);
        },
        Piece::King(_, _) => {
            let rows = to.row - pos.row;
            let cols = to.col - pos.col;
            let i: int = if rows == 0 && cols == -1 {
                0
            } else if rows == 0 && cols == 1 {
                1
            } else if rows == 1 && cols == 0 {
                2
            } else if rows == -1 && cols == 0 {
                3
            } else if rows == 1 && cols == -1 {
                4
            } else if rows == -1 && cols == -1 {
                5
            } else if rows == 1 && cols == 1 {
                6
            } else {
                7
            };
            assert(Piece::king_squares(pos)[i] == to);
            lemma_kept(Piece::king_squares(pos), Piece::is_open_to(color, board), i);
        },
        Piece::Knight(_, _) => {
            let rows = to.row - pos.row;
            let cols = to.col - pos.col;
            let i: int = if rows == 1 && cols == -2 {
                0
            } else if rows == 2 && cols == -1 {
                1
            } else if rows == -1 && cols == -2 {
                2
            } else if rows == -2 && cols == -1 {
                3
            } else if rows == 1 && cols == 2 {
                4
            } else if rows == 2 && cols == 1 {
                5
            } else if rows == -1 && cols == 2 {
                6
            } else {
                7
            };
            assert(Piece::knight_squares(pos)[i] == to);
            lemma_kept(Piece::knight_squares(pos), Piece::is_open_to(color, board), i);
        },
        Piece::Rook(_, _) => {
            lemma_straight_targets_hold(color, pos, to, board);
        },
        Piece::Bishop(_, _) => {
            lemma_diagonal_targets_hold(color, pos, to, board);
        },
        Piece::Queen(_, _) => {
            if pos.spec_is_orthogonal_to(to) {
                lemma_straight_targets_hold(color, pos, to, board);
            } else {
                lemma_diagonal_targets_hold(color, pos, to, board);
            }
            lemma_contains_joined(
                Piece::straight_targets(color, pos, board),
                Piece::diagonal_targets(color, pos, board),
                to,
            );
        },
    }
}

proof fn lemma_straight_targets_hold(color: Color, pos: Position, to: Position, board: BoardView)
    requires
        pos.is_on_board(),
        to.is_on_board(),
        to != pos,
        !board.has_ally_piece(to, color),
        pos.spec_is_orthogonal_to(to),
    ensures
        Piece::straight_targets(color, pos, board).contains(to),
{
    let free = Piece::is_free_for(color, pos, board);
    if to.col == pos.col {
        assert(Piece::column_squares(pos)[to.row as int] == to);
        lemma_kept(Piece::column_squares(pos), free, to.row as int);
    } else {
        assert(Piece::row_squares(pos)[to.col as int] == to);
        lemma_kept(Piece::row_squares(pos), free, to.col as int);
    }
    lemma_contains_joined(
        Piece::column_squares(pos).filter(free),
        Piece::row_squares(pos).filter(free),
        to,
    );
}

proof fn lemma_diagonal_targets_hold(color: Color, pos: Position, to: Position, board: BoardView)
    requires
        pos.is_on_board(),
        to.is_on_board(),
        to != pos,
        !board.has_ally_piece(to, color),
        pos.spec_is_diagonal_to(to),
    ensures
        Piece::diagonal_targets(color, pos, board).contains(to),
{
    let i = to.row * 8 + to.col;
    assert(Piece::all_squares()[i] == to);
    lemma_kept(Piece::all_squares(), Piece::is_free_diagonal_for(color, pos, board), i);
}

/// The legal moves of a piece that stands on the board are its legal steps
/// and the castlings that the board allows to it, no more and no fewer:
/// whatever the board's test of legality lets the piece do, the piece offers.
pub proof fn law_legal_moves_are_complete(board: BoardView, from: Position, m: Move)
    requires
        board.wf(),
        board.piece_at(from) is Some,
    ensures
        ({
            let piece = board.piece_at(from)->0;
            let color = piece.spec_get_color();
            piece.spec_get_legal_moves(board).contains(m) <==> match m {
                Move::Piece(start, to) => start == from && board.is_legal_move(m, color),
                Move::KingSideCastle => piece.spec_is_king() && board.can_kingside_castle(color),
                Move::QueenSideCastle => piece.spec_is_king() && board.can_queenside_castle(color),
                _ => false,
            }
        }),
{
    let piece = board.piece_at(from)->0;
    let color = piece.spec_get_color();
    let moves = piece.spec_get_legal_moves(board);
    let keeps = board.keeps(from, color);
    let kept = piece.targets(board).filter(keeps);
    let steps = kept.map_values(Piece::step_from(from));
    let castlings = piece.castlings(board);
    crate::movegen::lemma_legal_moves_keep_king_safe(piece, board);
    assert(moves == steps + castlings);
    match m {
        Move::Piece(start, to) => {
            if start == from && board.is_legal_move(m, color) {
                lemma_targets_hold_every_destination(piece, to, board);
                let i = choose|i: int|
                    0 <= i < piece.targets(board).len() && piece.targets(board)[i] == to;
                lemma_kept(piece.targets(board), keeps, i);
                let j = choose|j: int| 0 <= j < kept.len() && kept[j] == to;
                assert(steps[j] == m);
                assert(steps.contains(m));
                lemma_contains_joined(steps, castlings, m);
            }
        },
        Move::KingSideCastle => {
            if piece.spec_is_king() && board.can_kingside_castle(color) {
                assert(castlings[0] == m);
                assert(castlings.contains(m));
                lemma_contains_joined(steps, castlings, m);
            }
        },
        Move::QueenSideCastle => {
            if piece.spec_is_king() && board.can_queenside_castle(color) {
                assert(castlings[castlings.len() - 1] == m);
                assert(castlings.contains(m));
                lemma_contains_joined(steps, castlings, m);
            }
        },
        _ => {},
    }
}

/// The moves of each piece of the side to move stand in the list of the
/// board's legal moves.
proof fn lemma_moves_of_each_piece_are_listed(board: BoardView, n: int, from: Position, m: Move)
    requires
        board.wf(),
        0 <= n <= 64,
        from.is_on_board(),
        BoardView::square_index(from) < n,
        board.piece_at(from) is Some,
        board.piece_at(from)->0.spec_get_color() == board.turn,
        board.piece_at(from)->0.spec_get_legal_moves(board).contains(m),
    ensures
        board.legal_moves_among(n).contains(m),
    decreases n,
{
    let before = board.legal_moves_among(n - 1);
    let here = match board.piece_at(BoardView::square_pos(n - 1)) {
        Some(piece) => if piece.spec_get_color() == board.turn {
            piece.spec_get_legal_moves(board)
        } else {
            Seq::empty()
        },
        None => Seq::empty(),
    };
    assert(board.legal_moves_among(n) == before + here);
    if BoardView::square_index(from) == n - 1 {
        crate::board::lemma_square_index(from);
    } else {
        lemma_moves_of_each_piece_are_listed(board, n - 1, from, m);
    }
    lemma_contains_joined(before, here, m);
}

/// Each move in the list of the board's legal moves is a legal move of a
/// piece of the side to move.
proof fn lemma_listed_moves_are_legal(board: BoardView, n: int, i: int)
    requires
        board.wf(),
        0 <= n <= 64,
        0 <= i < board.legal_moves_among(n).len(),
    ensures
        board.is_legal_move(board.legal_moves_among(n)[i], board.turn),
        !(board.legal_moves_among(n)[i] is Resign),
    decreases n,
{
    let before = board.legal_moves_among(n - 1);
    if i < before.len() {
        lemma_listed_moves_are_legal(board, n - 1, i);
    } else {
        let piece = board.piece_at(BoardView::square_pos(n - 1))->0;
        crate::movegen::lemma_legal_moves_keep_king_safe(piece, board);
        assert(board.legal_moves_among(n)[i] == piece.spec_get_legal_moves(board)[i
            - before.len()]);
    }
}

/// The list of the board's legal moves holds legal moves of the side to
/// move only, and every legal step of that side: the side to move has no
/// legal step exactly if the list holds none. So a game is not given up as
/// won or drawn while a legal step is left.
pub proof fn law_listed_moves_are_the_legal_steps(board: BoardView, from: Position, to: Position)
    requires
        board.wf(),
    ensures
        board.legal_moves().contains(Move::Piece(from, to)) <==> board.is_legal_move(
            Move::Piece(from, to),
            board.turn,
        ),
        board.is_legal_move(Move::Piece(from, to), board.turn) ==> !board.is_checkmate()
            && !board.is_stalemate(),
{
    let m = Move::Piece(from, to);
    if board.is_legal_move(m, board.turn) {
        law_legal_moves_are_complete(board, from, m);
        lemma_moves_of_each_piece_are_listed(board, 64, from, m);
    }
    if board.legal_moves().contains(m) {
        let i = choose|i: int| 0 <= i < board.legal_moves().len() && board.legal_moves()[i] == m;
        lemma_listed_moves_are_legal(board, 64, i);
    }
}

/// Every move that the board lists is legal for the side to move, and none
/// of them is a resignation.
pub proof fn law_listed_moves_are_legal(board: BoardView, i: int)
    requires
        board.wf(),
        0 <= i < board.legal_moves().len(),
    ensures
        board.is_legal_move(board.legal_moves()[i], board.turn),
        !(board.legal_moves()[i] is Resign),
{
    lemma_listed_moves_are_legal(board, 64, i);
}

/// The move that the search prefers among `moves` is the first of those
/// with the best outcome for the side to move: no move has a better one,
/// and every move before it has a worse one.
pub proof fn law_best_index_is_the_first_best(
    board: BoardView,
    moves: Seq<Move>,
    depth: nat,
    color: Color,
    j: int,
)
    requires
        0 <= j < moves.len(),
    ensures
        ({
            let best = board.best_index(moves, depth, color);
            let best_value = board.child_value(moves[best], depth, color);
            let value = board.child_value(moves[j], depth, color);
            &&& 0 <= best < moves.len()
            &&& board.turn == color ==> value <= best_value && (j < best ==> value < best_value)
            &&& board.turn != color ==> value >= best_value && (j < best ==> value > best_value)
        }),
    decreases moves.len(),
{
    if moves.len() > 1 {
        let shorter = moves.drop_last();
        if j < shorter.len() {
            law_best_index_is_the_first_best(board, shorter, depth, color, j);
        }
        law_best_index_is_the_first_best(board, shorter, depth, color, 0);
        let before = board.best_index(shorter, depth, color);
        assert(shorter[before] == moves[before]);
        if j < shorter.len() {
            assert(shorter[j] == moves[j]);
        }
    }
}

/// The search chooses a legal move of the side to move wherever there is
/// one, and resigns only where there is none.
pub proof fn law_search_chooses_a_legal_move(board: BoardView, depth: nat, color: Color)
    requires
        board.wf(),
    ensures
        ({
            let chosen = board.best_move(depth, color);
            if board.legal_moves().len() == 0 {
                chosen == Move::Resign
            } else {
                &&& board.legal_moves().contains(chosen)
                &&& board.is_legal_move(chosen, board.turn)
                &&& !(chosen is Resign)
            }
        }),
{
    let moves = board.legal_moves();
    if moves.len() > 0 {
        law_best_index_is_the_first_best(board, moves, depth, color, 0);
        law_listed_moves_are_legal(board, board.best_index(moves, depth, color));
    }
}

} // verus!
