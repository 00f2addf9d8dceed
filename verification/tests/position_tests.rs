use chess_core::piece::{Color, Position, BLACK, WHITE};

fn at(row: i32, col: i32) -> Position {
    Position::new(row, col)
}

#[test]
fn color_inverts() {
    assert_eq!(!Color::White, Color::Black);
    assert_eq!(!Color::Black, Color::White);
    assert_eq!(!!WHITE, WHITE);
    assert_eq!(!BLACK, WHITE);
}

#[test]
fn color_orders_white_first() {
    assert!(Color::White < Color::Black);
}

#[test]
fn color_names() {
    assert_eq!(Color::White.name(), "White");
    assert_eq!(Color::Black.name(), "Black");
}

#[test]
fn position_accessors() {
    let p = Position::new(3, 4);
    assert_eq!(p.get_row(), 3);
    assert_eq!(p.get_col(), 4);
    assert_eq!(p, Position { row: 3, col: 4 });
}

#[test]
fn position_orders_by_row_then_column() {
    assert!(at(0, 7) < at(1, 0));
    assert!(at(2, 3) < at(2, 4));
}

#[test]
fn home_squares_of_king_and_queen() {
    assert_eq!(Position::king_pos(Color::White), at(0, 4));
    assert_eq!(Position::king_pos(Color::Black), at(7, 4));
    assert_eq!(Position::queen_pos(Color::White), at(0, 3));
    assert_eq!(Position::queen_pos(Color::Black), at(7, 3));
}

#[test]
fn board_edges() {
    for row in 0..8 {
        for col in 0..8 {
            assert!(at(row, col).is_on_board());
            assert!(!at(row, col).is_off_board());
        }
    }
    for p in [at(-1, 0), at(0, -1), at(8, 0), at(0, 8), at(-1, -1), at(100, 3)] {
        assert!(p.is_off_board());
        assert!(!p.is_on_board());
    }
}

#[test]
fn steps_do_not_clamp() {
    let a1 = at(0, 0);
    assert_eq!(a1.next_left(), at(0, -1));
    assert_eq!(a1.next_below(), at(-1, 0));
    assert_eq!(a1.next_right(), at(0, 1));
    assert_eq!(a1.next_above(), at(1, 0));
    let h8 = at(7, 7);
    assert_eq!(h8.next_right(), at(7, 8));
    assert_eq!(h8.next_above(), at(8, 7));
    assert!(h8.next_above().is_off_board());
}

#[test]
fn pawn_steps_depend_on_color() {
    let e4 = at(3, 4);
    assert_eq!(e4.pawn_up(Color::White), at(4, 4));
    assert_eq!(e4.pawn_up(Color::Black), at(2, 4));
    assert_eq!(e4.pawn_back(Color::White), at(2, 4));
    assert_eq!(e4.pawn_back(Color::Black), at(4, 4));
}

#[test]
fn alignment_predicates() {
    let d4 = at(3, 3);
    assert!(d4.is_diagonal_to(at(6, 6)));
    assert!(d4.is_diagonal_to(at(0, 6)));
    assert!(d4.is_diagonal_to(d4));
    assert!(!d4.is_diagonal_to(at(3, 5)));
    assert!(!d4.is_diagonal_to(at(5, 4)));
    assert!(d4.is_orthogonal_to(at(3, 0)));
    assert!(d4.is_orthogonal_to(at(7, 3)));
    assert!(d4.is_orthogonal_to(d4));
    assert!(!d4.is_orthogonal_to(at(4, 4)));
}

#[test]
fn alignment_far_beside_the_board() {
    let far = at(i32::MIN, i32::MAX);
    assert!(!far.is_diagonal_to(at(0, 0)));
    assert!(at(i32::MIN, 0).is_diagonal_to(at(0, i32::MIN)));
    assert!(!far.is_adjacent_to(at(0, 0)));
    assert!(!far.is_knight_move(at(0, 0)));
}

#[test]
fn adjacency_is_one_king_step() {
    let d4 = at(3, 3);
    let mut neighbours = 0;
    for row in 0..8 {
        for col in 0..8 {
            let p = at(row, col);
            let near = (row - 3).abs().max((col - 3).abs()) == 1;
            assert_eq!(d4.is_adjacent_to(p), near);
            if near {
                neighbours += 1;
            }
        }
    }
    assert_eq!(neighbours, 8);
    assert!(!d4.is_adjacent_to(d4));
}

#[test]
fn knight_jumps() {
    let d4 = at(3, 3);
    let jumps = [
        at(5, 4),
        at(5, 2),
        at(1, 4),
        at(1, 2),
        at(4, 5),
        at(4, 1),
        at(2, 5),
        at(2, 1),
    ];
    for row in 0..8 {
        for col in 0..8 {
            let p = at(row, col);
            assert_eq!(d4.is_knight_move(p), jumps.contains(&p));
        }
    }
}

#[test]
fn relative_placement() {
    let a7 = at(6, 0);
    let a8 = at(7, 0);
    let b8 = at(7, 1);
    assert!(a7.is_below(a8));
    assert!(!a8.is_below(a7));
    assert!(a8.is_above(a7));
    assert!(!a8.is_above(a8));
    assert!(a8.is_left_of(b8));
    assert!(b8.is_right_of(a8));
    assert!(!a8.is_right_of(b8));
}

#[test]
fn starting_ranks_and_rook_homes() {
    assert!(at(1, 3).is_starting_pawn(Color::White));
    assert!(!at(1, 3).is_starting_pawn(Color::Black));
    assert!(at(6, 3).is_starting_pawn(Color::Black));
    assert!(!at(6, 3).is_starting_pawn(Color::White));
    assert!(at(0, 7).is_kingside_rook());
    assert!(at(7, 7).is_kingside_rook());
    assert!(!at(0, 0).is_kingside_rook());
    assert!(!at(3, 7).is_kingside_rook());
    assert!(at(0, 0).is_queenside_rook());
    assert!(at(7, 0).is_queenside_rook());
    assert!(!at(7, 7).is_queenside_rook());
}

#[test]
fn diagonals_exclude_origin_and_include_destination() {
    assert_eq!(at(0, 0).diagonals_to(at(3, 3)), vec![at(1, 1), at(2, 2), at(3, 3)]);
    assert_eq!(at(3, 3).diagonals_to(at(1, 5)), vec![at(2, 4), at(1, 5)]);
    assert_eq!(at(3, 3).diagonals_to(at(5, 1)), vec![at(4, 2), at(5, 1)]);
    assert_eq!(at(3, 3).diagonals_to(at(2, 2)), vec![at(2, 2)]);
    assert_eq!(at(3, 3).diagonals_to(at(3, 3)), Vec::<Position>::new());
    assert_eq!(at(3, 3).diagonals_to(at(3, 5)), Vec::<Position>::new());
}

#[test]
fn orthogonals_exclude_origin_and_include_destination() {
    assert_eq!(at(0, 0).orthogonals_to(at(0, 3)), vec![at(0, 1), at(0, 2), at(0, 3)]);
    assert_eq!(at(4, 4).orthogonals_to(at(4, 2)), vec![at(4, 3), at(4, 2)]);
    assert_eq!(at(4, 4).orthogonals_to(at(6, 4)), vec![at(5, 4), at(6, 4)]);
    assert_eq!(at(4, 4).orthogonals_to(at(1, 4)), vec![at(3, 4), at(2, 4), at(1, 4)]);
    assert_eq!(at(4, 4).orthogonals_to(at(4, 4)), Vec::<Position>::new());
    assert_eq!(at(4, 4).orthogonals_to(at(5, 5)), Vec::<Position>::new());
}

#[test]
fn labels_are_read_in_either_case() {
    assert_eq!(Position::pgn("e4"), Ok(at(3, 4)));
    assert_eq!(Position::pgn("D8"), Ok(at(7, 3)));
    assert_eq!(Position::pgn("a1"), Ok(at(0, 0)));
    assert_eq!(Position::pgn("H1"), Ok(at(0, 7)));
}

#[test]
fn labels_may_be_padded_and_followed() {
    assert_eq!(Position::pgn("  e4  "), Ok(at(3, 4)));
    assert_eq!(Position::pgn("\t\u{a0}\u{3000}b7\n"), Ok(at(6, 1)));
    assert_eq!(Position::pgn("e4xyz"), Ok(at(3, 4)));
    assert_eq!(Position::pgn("c25"), Ok(at(1, 2)));
}

#[test]
fn ranks_beside_the_board_are_read_as_written() {
    assert_eq!(Position::pgn("e9"), Ok(at(8, 4)));
    assert_eq!(Position::pgn("e0"), Ok(at(-1, 4)));
    assert!(Position::pgn("e9").unwrap().is_off_board());
}

#[test]
fn malformed_labels_are_refused() {
    assert_eq!(Position::pgn(""), Err(String::from("invalid pgn")));
    assert_eq!(Position::pgn("   "), Err(String::from("invalid pgn")));
    assert_eq!(Position::pgn("e"), Err(String::from("invalid pgn")));
    assert_eq!(Position::pgn("e "), Err(String::from("invalid pgn")));
    assert_eq!(Position::pgn("ex"), Err(String::from("invalid pgn")));
    assert_eq!(Position::pgn("e+"), Err(String::from("invalid pgn")));
    assert_eq!(Position::pgn("zx"), Err(String::from("invalid pgn")));
    assert_eq!(Position::pgn("e 4"), Err(String::from("invalid pgn")));
}

#[test]
fn unknown_files_are_refused() {
    assert_eq!(Position::pgn("z4"), Err(String::from("invalid column character in pgn")));
    assert_eq!(Position::pgn("i1"), Err(String::from("invalid column character in pgn")));
    assert_eq!(Position::pgn("44"), Err(String::from("invalid column character in pgn")));
    assert_eq!(Position::pgn("\u{e9}4"), Err(String::from("invalid column character in pgn")));
}

#[test]
fn labels_are_written() {
    assert_eq!(at(3, 4).label(), "e4");
    assert_eq!(at(0, 0).label(), "a1");
    assert_eq!(at(7, 7).label(), "h8");
    assert_eq!(at(9, 2).label(), "c10");
    assert_eq!(at(122, 8).label(), "?123");
    assert_eq!(at(-1, -1).label(), "?0");
    assert_eq!(at(-2, 0).label(), "a-1");
    assert_eq!(at(i32::MAX, 0).label(), "a2147483648");
    assert_eq!(at(i32::MIN, 0).label(), "a-2147483647");
}

#[test]
fn labels_round_trip_on_the_board() {
    for row in 0..8 {
        for col in 0..8 {
            let p = at(row, col);
            assert_eq!(Position::pgn(&p.label()), Ok(p));
        }
    }
}
