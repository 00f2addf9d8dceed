use chess_core::board::{Board, BoardBuilder, CastlingRights, Square};
use chess_core::game::Move;
use chess_core::piece::{Color, Piece, Position};

fn p(row: i32, col: i32) -> Position {
    Position::new(row, col)
}

fn count(board: &Board, code_white: u8, code_black: u8) -> usize {
    board
        .squares_u8_value()
        .iter()
        .filter(|c| **c == code_white || **c == code_black)
        .count()
}

fn kings() -> BoardBuilder {
    BoardBuilder::default()
        .piece(Piece::King(Color::White, p(0, 4)))
        .piece(Piece::King(Color::Black, p(7, 4)))
}

#[test]
fn starting_position_has_the_full_set() {
    let board = Board::new();
    assert_eq!(count(&board, 1, 7), 16);
    assert_eq!(count(&board, 4, 10), 4);
    assert_eq!(count(&board, 2, 8), 4);
    assert_eq!(count(&board, 3, 9), 4);
    assert_eq!(count(&board, 5, 11), 2);
    assert_eq!(count(&board, 6, 12), 2);
    assert_eq!(count(&board, 0, 0), 32);
    assert_eq!(board.get_turn_color(), Color::White);
    for color in [Color::White, Color::Black] {
        assert!(board.get_castling_rights(color).can_kingside_castle());
        assert!(board.get_castling_rights(color).can_queenside_castle());
    }
    assert_eq!(board.get_en_passant(), None);
}

#[test]
fn starting_position_is_laid_out_rank_by_rank() {
    let codes = Board::new().squares_u8_value();
    assert_eq!(codes[0..8], [10, 8, 9, 11, 12, 9, 8, 10]);
    assert_eq!(codes[8..16], [7; 8]);
    assert_eq!(codes[16..48], [0; 32]);
    assert_eq!(codes[48..56], [1; 8]);
    assert_eq!(codes[56..64], [4, 2, 3, 5, 6, 3, 2, 4]);
}

#[test]
fn starting_position_square_by_square() {
    let board = Board::new();
    assert_eq!(board.get_piece(p(0, 0)), Some(Piece::Rook(Color::White, p(0, 0))));
    assert_eq!(board.get_piece(p(0, 1)), Some(Piece::Knight(Color::White, p(0, 1))));
    assert_eq!(board.get_piece(p(0, 2)), Some(Piece::Bishop(Color::White, p(0, 2))));
    assert_eq!(board.get_piece(p(0, 3)), Some(Piece::Queen(Color::White, p(0, 3))));
    assert_eq!(board.get_piece(p(0, 4)), Some(Piece::King(Color::White, p(0, 4))));
    assert_eq!(board.get_piece(p(0, 5)), Some(Piece::Bishop(Color::White, p(0, 5))));
    assert_eq!(board.get_piece(p(0, 6)), Some(Piece::Knight(Color::White, p(0, 6))));
    assert_eq!(board.get_piece(p(0, 7)), Some(Piece::Rook(Color::White, p(0, 7))));
    assert_eq!(board.get_piece(p(7, 3)), Some(Piece::Queen(Color::Black, p(7, 3))));
    assert_eq!(board.get_piece(p(7, 4)), Some(Piece::King(Color::Black, p(7, 4))));
    for col in 0..8 {
        assert_eq!(board.get_piece(p(1, col)), Some(Piece::Pawn(Color::White, p(1, col))));
        assert_eq!(board.get_piece(p(6, col)), Some(Piece::Pawn(Color::Black, p(6, col))));
        for row in 2..6 {
            assert_eq!(board.get_piece(p(row, col)), None);
        }
    }
}

#[test]
fn every_stored_piece_knows_its_square() {
    let board = Board::new();
    for i in 0..64 {
        let pos = Board::square_position(i);
        assert_eq!(pos, p(7 - (i as i32) / 8, (i as i32) % 8));
        assert_eq!(board.piece_at_index(i), board.get_piece(pos));
        if let Some(piece) = board.piece_at_index(i) {
            assert_eq!(piece.get_pos(), pos);
        }
    }
}

#[test]
fn empty_board() {
    let board = Board::empty();
    assert_eq!(board.squares_num(), 64);
    assert_eq!(board.squares_u8_value(), [0u8; 64]);
    assert_eq!(board.get_turn_color(), Color::White);
    assert_eq!(board.get_en_passant(), None);
    assert_eq!(board.get_castling_rights(Color::White), CastlingRights::default());
    assert_eq!(board.get_castling_rights(Color::Black), CastlingRights::default());
    assert_eq!(board.get_king_pos(Color::White), None);
    assert!(!board.is_in_check(Color::White));
    assert_eq!(BoardBuilder::default().build(), board);
}

#[test]
fn squares_and_rights_by_default() {
    assert_eq!(Square::default().get_piece(), None);
    let knight = Piece::Knight(Color::White, p(2, 2));
    assert_eq!(Square::from(knight).get_piece(), Some(knight));
    assert!(CastlingRights::default().can_kingside_castle());
    assert!(CastlingRights::default().can_queenside_castle());
}

#[test]
fn nothing_stands_beside_the_board() {
    let board = Board::new();
    for pos in [p(-1, 0), p(0, -1), p(8, 0), p(0, 8), p(1, -1), p(i32::MIN, i32::MAX)] {
        assert_eq!(board.get_piece(pos), None);
        assert!(!board.has_piece(pos));
        assert!(board.has_no_piece(pos));
        assert!(!board.has_ally_piece(pos, Color::White));
        assert!(!board.has_enemy_piece(pos, Color::White));
    }
}

#[test]
fn occupancy_queries() {
    let board = Board::new();
    assert!(board.has_piece(p(0, 0)));
    assert!(!board.has_no_piece(p(0, 0)));
    assert!(board.has_ally_piece(p(0, 0), Color::White));
    assert!(!board.has_ally_piece(p(0, 0), Color::Black));
    assert!(board.has_enemy_piece(p(0, 0), Color::Black));
    assert!(!board.has_enemy_piece(p(0, 0), Color::White));
    assert!(!board.has_piece(p(3, 3)));
    assert!(board.has_no_piece(p(3, 3)));
    assert!(!board.has_ally_piece(p(3, 3), Color::White));
    assert!(!board.has_enemy_piece(p(3, 3), Color::White));
}

#[test]
fn builder_ignores_a_piece_beside_the_board() {
    let board = BoardBuilder::default()
        .piece(Piece::Queen(Color::White, p(1, -1)))
        .piece(Piece::Queen(Color::White, p(0, 8)))
        .piece(Piece::Queen(Color::White, p(-1, 3)))
        .build();
    assert_eq!(board, Board::empty());
}

#[test]
fn builder_replaces_what_stands_on_a_square() {
    let board = BoardBuilder::default()
        .piece(Piece::Queen(Color::White, p(3, 3)))
        .piece(Piece::Pawn(Color::Black, p(3, 3)))
        .build();
    assert_eq!(board.get_piece(p(3, 3)), Some(Piece::Pawn(Color::Black, p(3, 3))));
    assert_eq!(count(&board, 0, 0), 63);
}

#[test]
fn builder_fills_a_row() {
    let board = BoardBuilder::default().row(Piece::Pawn(Color::Black, p(6, 5))).build();
    for col in 0..8 {
        assert_eq!(board.get_piece(p(6, col)), Some(Piece::Pawn(Color::Black, p(6, col))));
    }
    assert_eq!(count(&board, 0, 0), 56);
}

#[test]
fn builder_fills_a_row_from_left_of_the_board() {
    let board = BoardBuilder::default().row(Piece::Rook(Color::White, p(2, -3))).build();
    for col in 0..5 {
        assert_eq!(board.get_piece(p(2, col)), Some(Piece::Rook(Color::White, p(2, col))));
    }
    for col in 5..8 {
        assert_eq!(board.get_piece(p(2, col)), None);
    }
    let none = BoardBuilder::default().row(Piece::Rook(Color::White, p(8, 0))).build();
    assert_eq!(none, Board::empty());
    let far = BoardBuilder::default().row(Piece::Rook(Color::White, p(0, i32::MIN))).build();
    assert_eq!(far, Board::empty());
}

#[test]
fn builder_fills_a_column() {
    let board = BoardBuilder::default().column(Piece::Bishop(Color::White, p(4, 2))).build();
    for row in 0..8 {
        assert_eq!(board.get_piece(p(row, 2)), Some(Piece::Bishop(Color::White, p(row, 2))));
    }
    assert_eq!(count(&board, 0, 0), 56);
    let low = BoardBuilder::default().column(Piece::Bishop(Color::White, p(-6, 2))).build();
    assert_eq!(low.get_piece(p(0, 2)), Some(Piece::Bishop(Color::White, p(0, 2))));
    assert_eq!(low.get_piece(p(1, 2)), Some(Piece::Bishop(Color::White, p(1, 2))));
    assert_eq!(low.get_piece(p(2, 2)), None);
}

#[test]
fn builder_sets_rights_turn_and_target() {
    let board = BoardBuilder::default()
        .disable_castling()
        .enable_kingside_castle(Color::Black)
        .enable_queenside_castle(Color::White)
        .set_turn(Color::Black)
        .set_en_passant(Some(p(2, 4)))
        .build();
    assert_eq!(
        board.get_castling_rights(Color::White),
        CastlingRights { kingside: false, queenside: true }
    );
    assert_eq!(
        board.get_castling_rights(Color::Black),
        CastlingRights { kingside: true, queenside: false }
    );
    assert_eq!(board.get_turn_color(), Color::Black);
    assert_eq!(board.get_en_passant(), Some(p(2, 4)));
    let again = BoardBuilder::from(board)
        .enable_castling()
        .disable_kingside_castle(Color::White)
        .disable_queenside_castle(Color::Black)
        .set_en_passant(None)
        .build();
    assert_eq!(
        again.get_castling_rights(Color::White),
        CastlingRights { kingside: false, queenside: true }
    );
    assert_eq!(
        again.get_castling_rights(Color::Black),
        CastlingRights { kingside: true, queenside: false }
    );
    assert_eq!(again.get_turn_color(), Color::Black);
    assert_eq!(again.get_en_passant(), None);
}

#[test]
fn set_turn_leaves_the_rest() {
    let board = Board::new();
    let black = board.set_turn(Color::Black);
    assert_eq!(black.get_turn_color(), Color::Black);
    assert_eq!(black.squares_u8_value(), board.squares_u8_value());
    assert_eq!(black.set_turn(Color::White), board);
    assert_eq!(board.get_turn_color(), Color::White);
}

#[test]
fn remove_all_takes_one_side_off() {
    let board = Board::new();
    let without_black = board.remove_all(Color::Black);
    assert_eq!(count(&without_black, 0, 0), 48);
    for row in 0..2 {
        for col in 0..8 {
            assert_eq!(without_black.get_piece(p(row, col)), board.get_piece(p(row, col)));
        }
    }
    for row in 6..8 {
        for col in 0..8 {
            assert_eq!(without_black.get_piece(p(row, col)), None);
        }
    }
    assert_eq!(without_black.remove_all(Color::White).squares_u8_value(), [0u8; 64]);
    assert_eq!(count(&board, 0, 0), 32);
}

#[test]
fn material_advantage_is_signed() {
    let board = Board::new();
    assert_eq!(board.get_material_advantage(Color::White), 0);
    assert_eq!(board.get_material_advantage(Color::Black), 0);
    let lone = BoardBuilder::default()
        .piece(Piece::Queen(Color::White, p(0, 3)))
        .piece(Piece::Rook(Color::Black, p(7, 0)))
        .piece(Piece::Pawn(Color::Black, p(6, 0)))
        .build();
    assert_eq!(lone.get_material_advantage(Color::White), 3);
    assert_eq!(lone.get_material_advantage(Color::Black), -3);
    let all = board.remove_all(Color::Black);
    assert_eq!(all.get_material_advantage(Color::White), 9999 + 9 + 10 + 6 + 6 + 8);
    assert_eq!(all.get_material_advantage(Color::Black), -(9999 + 9 + 10 + 6 + 6 + 8));
}

#[test]
fn king_is_found() {
    let board = Board::new();
    assert_eq!(board.get_king_pos(Color::White), Some(p(0, 4)));
    assert_eq!(board.get_king_pos(Color::Black), Some(p(7, 4)));
    assert_eq!(board.remove_all(Color::White).get_king_pos(Color::White), None);
    let two = BoardBuilder::default()
        .piece(Piece::King(Color::White, p(7, 0)))
        .piece(Piece::King(Color::White, p(0, 7)))
        .piece(Piece::King(Color::White, p(3, 3)))
        .build();
    assert_eq!(two.get_king_pos(Color::White), Some(p(0, 7)));
    assert_eq!(two.get_king_pos(Color::Black), None);
}

#[test]
fn moved_piece_arrives() {
    let from = p(3, 3);
    for color in [Color::White, Color::Black] {
        for to in [p(4, 4), p(0, 0), p(7, 7), p(3, 3), p(2, 6)] {
            for piece in [
                Piece::King(color, from),
                Piece::Queen(color, from),
                Piece::Rook(color, from),
                Piece::Bishop(color, from),
                Piece::Knight(color, from),
                Piece::Pawn(color, from),
            ] {
                let board = BoardBuilder::default().piece(piece).build();
                let moved = board.move_piece(from, to, None);
                let expected = if piece.is_pawn() && (to.get_row() == 0 || to.get_row() == 7) {
                    Piece::Queen(color, to)
                } else {
                    piece.move_to(to)
                };
                assert_eq!(moved.get_piece(to), Some(expected));
                if to != from {
                    assert_eq!(moved.get_piece(from), None);
                }
                assert_eq!(count(&moved, 0, 0), 63);
                assert_eq!(board.get_piece(from), Some(piece));
            }
        }
    }
}

#[test]
fn move_piece_captures() {
    let board = BoardBuilder::default()
        .piece(Piece::Rook(Color::White, p(0, 0)))
        .piece(Piece::Queen(Color::Black, p(7, 0)))
        .build();
    let moved = board.move_piece(p(0, 0), p(7, 0), None);
    assert_eq!(moved.get_piece(p(7, 0)), Some(Piece::Rook(Color::White, p(7, 0))));
    assert_eq!(moved.get_piece(p(0, 0)), None);
    assert_eq!(count(&moved, 0, 0), 63);
}

#[test]
fn move_piece_promotes() {
    let white = BoardBuilder::default().piece(Piece::Pawn(Color::White, p(6, 2))).build();
    let black = BoardBuilder::default().piece(Piece::Pawn(Color::Black, p(1, 2))).build();
    let any = p(-1, -1);
    assert_eq!(
        white.move_piece(p(6, 2), p(7, 2), None).get_piece(p(7, 2)),
        Some(Piece::Queen(Color::White, p(7, 2)))
    );
    assert_eq!(
        black.move_piece(p(1, 2), p(0, 2), None).get_piece(p(0, 2)),
        Some(Piece::Queen(Color::Black, p(0, 2)))
    );
    assert_eq!(
        white.move_piece(p(6, 2), p(7, 2), Some(Piece::Rook(Color::Black, any))).get_piece(p(7, 2)),
        Some(Piece::Rook(Color::White, p(7, 2)))
    );
    assert_eq!(
        white.move_piece(p(6, 2), p(7, 3), Some(Piece::Knight(Color::Black, any))).get_piece(p(7, 3)),
        Some(Piece::Knight(Color::White, p(7, 3)))
    );
    assert_eq!(
        black.move_piece(p(1, 2), p(0, 2), Some(Piece::Bishop(Color::White, any))).get_piece(p(0, 2)),
        Some(Piece::Bishop(Color::Black, p(0, 2)))
    );
    assert_eq!(
        white.move_piece(p(6, 2), p(7, 2), Some(Piece::King(Color::White, any))).get_piece(p(7, 2)),
        Some(Piece::Queen(Color::White, p(7, 2)))
    );
    assert_eq!(
        white.move_piece(p(6, 2), p(7, 2), Some(Piece::Pawn(Color::White, any))).get_piece(p(7, 2)),
        Some(Piece::Queen(Color::White, p(7, 2)))
    );
    assert_eq!(
        white.move_piece(p(6, 2), p(5, 2), Some(Piece::Rook(Color::White, any))).get_piece(p(5, 2)),
        Some(Piece::Pawn(Color::White, p(5, 2)))
    );
}

#[test]
fn move_piece_beside_the_board_only_clears_the_target() {
    let board = BoardBuilder::from(Board::new()).set_en_passant(Some(p(2, 4))).build();
    let cleared = BoardBuilder::from(Board::new()).build();
    assert_eq!(board.move_piece(p(-1, 0), p(3, 0), None), cleared);
    assert_eq!(board.move_piece(p(1, 0), p(8, 0), None), cleared);
    assert_eq!(board.move_piece(p(1, 0), p(3, -1), None), cleared);
    assert_eq!(board.move_piece(p(4, 0), p(5, 0), None), cleared);
    assert_eq!(board.get_en_passant(), Some(p(2, 4)));
}

#[test]
fn double_advance_sets_the_en_passant_target() {
    let board = Board::new();
    assert_eq!(board.move_piece(p(1, 4), p(3, 4), None).get_en_passant(), Some(p(2, 4)));
    assert_eq!(board.move_piece(p(6, 4), p(4, 4), None).get_en_passant(), Some(p(5, 4)));
    assert_eq!(board.move_piece(p(1, 0), p(3, 0), None).get_en_passant(), Some(p(2, 0)));
    assert_eq!(board.move_piece(p(6, 7), p(4, 7), None).get_en_passant(), Some(p(5, 7)));
}

#[test]
fn other_moves_leave_no_en_passant_target() {
    let board = BoardBuilder::from(Board::new()).set_en_passant(Some(p(5, 5))).build();
    assert_eq!(board.move_piece(p(1, 4), p(2, 4), None).get_en_passant(), None);
    assert_eq!(board.move_piece(p(0, 1), p(2, 2), None).get_en_passant(), None);
    assert_eq!(board.move_piece(p(0, 0), p(2, 0), None).get_en_passant(), None);
    let advanced = board.move_piece(p(1, 4), p(2, 4), None);
    assert_eq!(advanced.move_piece(p(2, 4), p(4, 4), None).get_en_passant(), None);
    let after = board.move_piece(p(1, 4), p(3, 4), None);
    assert_eq!(after.get_en_passant(), Some(p(2, 4)));
    assert_eq!(after.move_piece(p(7, 1), p(5, 2), None).get_en_passant(), None);
}

#[test]
fn king_move_takes_both_rights() {
    let board = Board::new();
    let moved = board.move_piece(p(0, 4), p(1, 4), None);
    assert_eq!(
        moved.get_castling_rights(Color::White),
        CastlingRights { kingside: false, queenside: false }
    );
    assert_eq!(moved.get_castling_rights(Color::Black), CastlingRights::default());
    let black = board.move_piece(p(7, 4), p(6, 4), None);
    assert_eq!(
        black.get_castling_rights(Color::Black),
        CastlingRights { kingside: false, queenside: false }
    );
    assert_eq!(black.get_castling_rights(Color::White), CastlingRights::default());
}

#[test]
fn rook_move_takes_the_right_of_its_side() {
    let board = Board::new();
    assert_eq!(
        board.move_piece(p(0, 0), p(3, 0), None).get_castling_rights(Color::White),
        CastlingRights { kingside: true, queenside: false }
    );
    assert_eq!(
        board.move_piece(p(0, 7), p(3, 7), None).get_castling_rights(Color::White),
        CastlingRights { kingside: false, queenside: true }
    );
    assert_eq!(
        board.move_piece(p(7, 0), p(3, 0), None).get_castling_rights(Color::Black),
        CastlingRights { kingside: true, queenside: false }
    );
    assert_eq!(
        board.move_piece(p(7, 7), p(3, 7), None).get_castling_rights(Color::Black),
        CastlingRights { kingside: false, queenside: true }
    );
    let other = board.move_piece(p(0, 1), p(2, 2), None);
    assert_eq!(other.get_castling_rights(Color::White), CastlingRights::default());
    assert_eq!(other.get_castling_rights(Color::Black), CastlingRights::default());
    let rook_elsewhere = BoardBuilder::default().piece(Piece::Rook(Color::White, p(3, 3))).build();
    assert_eq!(
        rook_elsewhere.move_piece(p(3, 3), p(3, 4), None).get_castling_rights(Color::White),
        CastlingRights::default()
    );
}

#[test]
fn lost_rights_do_not_come_back() {
    let board = Board::new();
    let out = board.move_piece(p(0, 7), p(3, 7), None);
    let back = out.move_piece(p(3, 7), p(0, 7), None);
    assert_eq!(back.get_piece(p(0, 7)), Some(Piece::Rook(Color::White, p(0, 7))));
    assert_eq!(
        back.get_castling_rights(Color::White),
        CastlingRights { kingside: false, queenside: true }
    );
}

#[test]
fn threats_by_kind() {
    let board = BoardBuilder::default()
        .piece(Piece::Rook(Color::Black, p(7, 0)))
        .piece(Piece::Bishop(Color::Black, p(7, 7)))
        .piece(Piece::Knight(Color::Black, p(4, 4)))
        .piece(Piece::Pawn(Color::Black, p(3, 1)))
        .piece(Piece::King(Color::Black, p(0, 6)))
        .piece(Piece::Pawn(Color::White, p(5, 0)))
        .build();
    assert!(board.is_threatened(p(7, 3), Color::White));
    assert!(board.is_threatened(p(6, 0), Color::White));
    assert!(board.is_threatened(p(5, 0), Color::White));
    assert!(!board.is_threatened(p(4, 0), Color::White));
    assert!(board.is_threatened(p(6, 6), Color::White));
    assert!(board.is_threatened(p(5, 5), Color::White));
    assert!(!board.is_threatened(p(3, 3), Color::White));
    assert!(board.is_threatened(p(2, 3), Color::White));
    assert!(board.is_threatened(p(6, 5), Color::White));
    assert!(board.is_threatened(p(2, 0), Color::White));
    assert!(board.is_threatened(p(2, 2), Color::White));
    assert!(!board.is_threatened(p(2, 1), Color::White));
    assert!(!board.is_threatened(p(4, 1), Color::White));
    assert!(board.is_threatened(p(1, 7), Color::White));
    assert!(!board.is_threatened(p(2, 6), Color::White));
    assert!(!board.is_threatened(p(7, 3), Color::Black));
    assert!(board.is_threatened(p(6, 1), Color::Black));
    assert!(!board.is_threatened(p(6, 0), Color::Black));
    assert!(!board.is_threatened(p(-1, 0), Color::White));
}

#[test]
fn a_piece_does_not_threaten_a_square_of_its_own_side() {
    let board = BoardBuilder::default()
        .piece(Piece::Rook(Color::Black, p(7, 0)))
        .piece(Piece::Pawn(Color::Black, p(7, 3)))
        .build();
    assert!(!board.is_threatened(p(7, 3), Color::White));
    assert!(board.is_threatened(p(7, 2), Color::White));
    assert!(!board.is_threatened(p(7, 4), Color::White));
}

#[test]
fn check_is_a_threat_to_the_king() {
    let quiet = kings().piece(Piece::Rook(Color::Black, p(5, 3))).build();
    assert!(!quiet.is_in_check(Color::White));
    assert!(!quiet.is_in_check(Color::Black));
    let check = kings().piece(Piece::Rook(Color::Black, p(0, 0))).build();
    assert!(check.is_in_check(Color::White));
    assert!(!check.is_in_check(Color::Black));
    let blocked = kings()
        .piece(Piece::Rook(Color::Black, p(0, 0)))
        .piece(Piece::Knight(Color::White, p(0, 1)))
        .build();
    assert!(!blocked.is_in_check(Color::White));
    let pawn = kings().piece(Piece::Pawn(Color::Black, p(1, 3))).build();
    assert!(pawn.is_in_check(Color::White));
    let pawn_ahead = kings().piece(Piece::Pawn(Color::Black, p(1, 4))).build();
    assert!(!pawn_ahead.is_in_check(Color::White));
    assert!(!Board::new().is_in_check(Color::White));
}

fn castling_setup() -> BoardBuilder {
    BoardBuilder::default()
        .piece(Piece::King(Color::White, p(0, 4)))
        .piece(Piece::Rook(Color::White, p(0, 0)))
        .piece(Piece::Rook(Color::White, p(0, 7)))
        .piece(Piece::King(Color::Black, p(7, 4)))
        .piece(Piece::Rook(Color::Black, p(7, 0)))
        .piece(Piece::Rook(Color::Black, p(7, 7)))
        .row(Piece::Pawn(Color::White, p(1, 0)))
        .row(Piece::Pawn(Color::Black, p(6, 0)))
}

#[test]
fn castling_is_allowed_on_clear_wings() {
    let board = castling_setup().build();
    for color in [Color::White, Color::Black] {
        assert!(board.can_kingside_castle(color));
        assert!(board.can_queenside_castle(color));
    }
    let start = Board::new();
    for color in [Color::White, Color::Black] {
        assert!(!start.can_kingside_castle(color));
        assert!(!start.can_queenside_castle(color));
    }
}

#[test]
fn kingside_castling_needs_empty_squares_and_the_rook() {
    let f1 = castling_setup().piece(Piece::Bishop(Color::White, p(0, 5))).build();
    assert!(!f1.can_kingside_castle(Color::White));
    assert!(f1.can_queenside_castle(Color::White));
    let g1 = castling_setup().piece(Piece::Knight(Color::Black, p(0, 6))).build();
    assert!(!g1.can_kingside_castle(Color::White));
    let no_rook = castling_setup().build().remove_all(Color::White);
    let no_rook = BoardBuilder::from(no_rook).piece(Piece::King(Color::White, p(0, 4))).build();
    assert!(!no_rook.can_kingside_castle(Color::White));
    let wrong_rook = castling_setup().piece(Piece::Rook(Color::Black, p(0, 7))).build();
    assert!(!wrong_rook.can_kingside_castle(Color::White));
    let queen = castling_setup().piece(Piece::Queen(Color::White, p(0, 7))).build();
    assert!(!queen.can_kingside_castle(Color::White));
}

#[test]
fn castling_needs_the_right() {
    let board = castling_setup().disable_kingside_castle(Color::White).build();
    assert!(!board.can_kingside_castle(Color::White));
    assert!(board.can_queenside_castle(Color::White));
    assert!(board.can_kingside_castle(Color::Black));
    let board = castling_setup().disable_queenside_castle(Color::Black).build();
    assert!(!board.can_queenside_castle(Color::Black));
    assert!(board.can_kingside_castle(Color::Black));
    assert!(board.can_queenside_castle(Color::White));
}

fn open_file(col: i32) -> Board {
    let without_pawn = castling_setup().build().move_piece(p(1, col), p(3, 0), None);
    BoardBuilder::from(without_pawn)
        .piece(Piece::Pawn(Color::White, p(3, 0)))
        .piece(Piece::Queen(Color::Black, p(4, col)))
        .enable_castling()
        .build()
}

#[test]
fn kingside_castling_needs_safe_squares() {
    assert!(!open_file(4).is_threatened(p(0, 5), Color::White));
    assert!(open_file(4).is_in_check(Color::White));
    assert!(!open_file(4).can_kingside_castle(Color::White));
    assert!(!open_file(5).is_in_check(Color::White));
    assert!(open_file(5).is_threatened(p(0, 5), Color::White));
    assert!(!open_file(5).can_kingside_castle(Color::White));
    assert!(open_file(6).is_threatened(p(0, 6), Color::White));
    assert!(!open_file(6).can_kingside_castle(Color::White));
    assert!(open_file(7).is_threatened(p(0, 7), Color::White));
    assert!(open_file(7).can_kingside_castle(Color::White));
    assert!(open_file(5).can_kingside_castle(Color::Black));
}

#[test]
fn queenside_castling_needs_safe_squares() {
    assert!(!open_file(4).can_queenside_castle(Color::White));
    assert!(!open_file(3).can_queenside_castle(Color::White));
    assert!(open_file(2).is_threatened(p(0, 2), Color::White));
    assert!(!open_file(2).can_queenside_castle(Color::White));
    assert!(open_file(1).is_threatened(p(0, 1), Color::White));
    assert!(open_file(1).can_queenside_castle(Color::White));
    assert!(open_file(0).can_queenside_castle(Color::White));
}

#[test]
fn queenside_castling_needs_three_empty_squares() {
    for col in 1..4 {
        let board = castling_setup().piece(Piece::Knight(Color::White, p(0, col))).build();
        assert!(!board.can_queenside_castle(Color::White));
        assert!(board.can_kingside_castle(Color::White));
        let board = castling_setup().piece(Piece::Knight(Color::White, p(7, col))).build();
        assert!(!board.can_queenside_castle(Color::Black));
    }
}

#[test]
fn castling_moves_king_and_rook() {
    let board = castling_setup().build();
    let short = board.apply_move(Move::KingSideCastle);
    assert_eq!(short.get_piece(p(0, 6)), Some(Piece::King(Color::White, p(0, 6))));
    assert_eq!(short.get_piece(p(0, 5)), Some(Piece::Rook(Color::White, p(0, 5))));
    assert_eq!(short.get_piece(p(0, 4)), None);
    assert_eq!(short.get_piece(p(0, 7)), None);
    assert_eq!(short.get_piece(p(0, 0)), Some(Piece::Rook(Color::White, p(0, 0))));
    assert_eq!(short.get_turn_color(), Color::Black);
    assert_eq!(
        short.get_castling_rights(Color::White),
        CastlingRights { kingside: false, queenside: false }
    );
    assert_eq!(short.get_castling_rights(Color::Black), CastlingRights::default());
    let long = board.apply_move(Move::QueenSideCastle);
    assert_eq!(long.get_piece(p(0, 2)), Some(Piece::King(Color::White, p(0, 2))));
    assert_eq!(long.get_piece(p(0, 3)), Some(Piece::Rook(Color::White, p(0, 3))));
    assert_eq!(long.get_piece(p(0, 4)), None);
    assert_eq!(long.get_piece(p(0, 0)), None);
    assert_eq!(long.get_piece(p(0, 1)), None);
    let black = board.set_turn(Color::Black);
    let short = black.apply_move(Move::KingSideCastle);
    assert_eq!(short.get_piece(p(7, 6)), Some(Piece::King(Color::Black, p(7, 6))));
    assert_eq!(short.get_piece(p(7, 5)), Some(Piece::Rook(Color::Black, p(7, 5))));
    assert_eq!(short.get_turn_color(), Color::White);
    let long = black.apply_move(Move::QueenSideCastle);
    assert_eq!(long.get_piece(p(7, 2)), Some(Piece::King(Color::Black, p(7, 2))));
    assert_eq!(long.get_piece(p(7, 3)), Some(Piece::Rook(Color::Black, p(7, 3))));
}

#[test]
fn apply_move_passes_the_turn_and_clears_the_target() {
    let board = BoardBuilder::from(Board::new()).set_en_passant(Some(p(5, 0))).build();
    let resigned = board.apply_move(Move::Resign);
    assert_eq!(resigned.get_turn_color(), Color::Black);
    assert_eq!(resigned.get_en_passant(), None);
    assert_eq!(resigned.squares_u8_value(), board.squares_u8_value());
    let kingless = BoardBuilder::default().set_en_passant(Some(p(5, 0))).build();
    let castled = kingless.apply_move(Move::KingSideCastle);
    assert_eq!(castled.get_en_passant(), None);
    assert_eq!(castled.get_turn_color(), Color::Black);
    assert_eq!(castled.squares_u8_value(), [0u8; 64]);
    let stepped = board.apply_move(Move::Piece(p(1, 0), p(2, 0)));
    assert_eq!(stepped.get_turn_color(), Color::Black);
    assert_eq!(stepped.get_en_passant(), None);
    assert_eq!(stepped.get_piece(p(2, 0)), Some(Piece::Pawn(Color::White, p(2, 0))));
}

#[test]
fn apply_move_takes_the_pawn_passed_en_passant() {
    let board = kings()
        .piece(Piece::Pawn(Color::White, p(3, 4)))
        .piece(Piece::Pawn(Color::Black, p(3, 3)))
        .piece(Piece::Pawn(Color::Black, p(3, 5)))
        .set_en_passant(Some(p(2, 4)))
        .set_turn(Color::Black)
        .build();
    for from in [p(3, 3), p(3, 5)] {
        let after = board.apply_move(Move::Piece(from, p(2, 4)));
        assert_eq!(after.get_piece(p(2, 4)), Some(Piece::Pawn(Color::Black, p(2, 4))));
        assert_eq!(after.get_piece(p(3, 4)), None);
        assert_eq!(after.get_piece(from), None);
        assert_eq!(after.get_en_passant(), None);
        assert_eq!(count(&after, 1, 7), 2);
    }
    let other = board.apply_move(Move::Piece(p(3, 3), p(2, 3)));
    assert_eq!(other.get_piece(p(3, 4)), Some(Piece::Pawn(Color::White, p(3, 4))));
}

#[test]
fn apply_move_promotes_to_the_piece_asked_for() {
    let board = kings().piece(Piece::Pawn(Color::White, p(6, 0))).build();
    let wanted = Piece::Knight(Color::Black, p(0, 0));
    let after = board.apply_move(Move::Promotion(p(6, 0), p(7, 0), wanted));
    assert_eq!(after.get_piece(p(7, 0)), Some(Piece::Knight(Color::White, p(7, 0))));
    assert_eq!(after.get_piece(p(6, 0)), None);
    assert_eq!(after.get_turn_color(), Color::Black);
    let plain = board.apply_move(Move::Piece(p(6, 0), p(7, 0)));
    assert_eq!(plain.get_piece(p(7, 0)), Some(Piece::Queen(Color::White, p(7, 0))));
}
