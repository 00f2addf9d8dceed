//! Positional bonuses.
//!
//! Each table is written as the board is seen from White's side: its first
//! row is rank 8, its last row rank 1, and within a row the a-file comes
//! first. The entries are in half points, so that every bonus is a whole
//! number.

use vstd::prelude::*;

verus! {

/// Bonus for White kings, in half points.
pub const WHITE_KING_POSITION_WEIGHTS: [[i32; 8]; 8] = [
    [-6, -8, -8, -10, -10, -8, -8, -6],
    [-6, -8, -8, -10, -10, -8, -8, -6],
    [-6, -8, -8, -10, -10, -8, -8, -6],
    [-6, -8, -8, -10, -10, -8, -8, -6],
    [-4, -6, -6, -8, -8, -6, -6, -4],
    [-2, -4, -4, -4, -4, -4, -4, -2],
    [4, 4, 0, 0, 0, 0, 4, 4],
    [4, 6, 2, 0, 0, 2, 6, 4],
];

/// Bonus for Black kings, in half points.
pub const BLACK_KING_POSITION_WEIGHTS: [[i32; 8]; 8] = [
    [4, 6, 2, 0, 0, 2, 6, 4],
    [4, 4, 0, 0, 0, 0, 4, 4],
    [-2, -4, -4, -4, -4, -4, -4, -2],
    [-4, -6, -6, -8, -8, -6, -6, -4],
    [-6, -8, -8, -10, -10, -8, -8, -6],
    [-6, -8, -8, -10, -10, -8, -8, -6],
    [-6, -8, -8, -10, -10, -8, -8, -6],
    [-6, -8, -8, -10, -10, -8, -8, -6],
];

/// Bonus for White queens, in half points.
pub const WHITE_QUEEN_POSITION_WEIGHTS: [[i32; 8]; 8] = [
    [-4, -2, -2, -1, -1, -2, -2, -4],
    [-2, 0, 0, 0, 0, 0, 0, -2],
    [-2, 0, 1, 1, 1, 1, 0, -2],
    [-1, 0, 1, 1, 1, 1, 0, -1],
    [0, 0, 1, 1, 1, 1, 0, -1],
    [-2, 1, 1, 1, 1, 1, 0, -2],
    [-2, 0, 1, 0, 0, 0, 0, -2],
    [-2, 0, -2, -1, -1, -1, -2, -4],
];

/// Bonus for Black queens, in half points.
pub const BLACK_QUEEN_POSITION_WEIGHTS: [[i32; 8]; 8] = [
    [-2, 0, -2, -1, -1, -1, -2, -4],
    [-2, 0, 1, 0, 0, 0, 0, -2],
    [-2, 1, 1, 1, 1, 1, 0, -2],
    [0, 0, 1, 1, 1, 1, 0, -1],
    [-1, 0, 1, 1, 1, 1, 0, -1],
    [-2, 0, 1, 1, 1, 1, 0, -2],
    [-2, 0, 0, 0, 0, 0, 0, -2],
    [-4, -2, -2, -1, -1, -2, -2, -4],
];

/// Bonus for White rooks, in half points.
pub const WHITE_ROOK_POSITION_WEIGHTS: [[i32; 8]; 8] = [
    [0, 0, 0, 0, 0, 0, 0, 0],
    [1, 2, 2, 2, 2, 2, 2, 1],
    [-1, 0, 0, 0, 0, 0, 0, -1],
    [-1, 0, 0, 0, 0, 0, 0, -1],
    [-1, 0, 0, 0, 0, 0, 0, -1],
    [-1, 0, 0, 0, 0, 0, 0, -1],
    [-1, 0, 0, 0, 0, 0, 0, -1],
    [0, 0, 0, 1, 1, 0, 0, 0],
];

/// Bonus for Black rooks, in half points.
pub const BLACK_ROOK_POSITION_WEIGHTS: [[i32; 8]; 8] = [
    [0, 0, 0, 1, 1, 0, 0, 0],
    [-1, 0, 0, 0, 0, 0, 0, -1],
    [-1, 0, 0, 0, 0, 0, 0, -1],
    [-1, 0, 0, 0, 0, 0, 0, -1],
    [-1, 0, 0, 0, 0, 0, 0, -1],
    [-1, 0, 0, 0, 0, 0, 0, -1],
    [1, 2, 2, 2, 2, 2, 2, 1],
    [0, 0, 0, 0, 0, 0, 0, 0],
];

/// Bonus for White bishops, in half points.
pub const WHITE_BISHOP_POSITION_WEIGHTS: [[i32; 8]; 8] = [
    [-4, -2, -2, -2, -2, -2, -2, -4],
    [-2, 0, 0, 0, 0, 0, 0, -2],
    [-2, 0, 1, 2, 2, 1, 0, -2],
    [-2, 1, 1, 2, 2, 1, 1, -2],
    [-2, 0, 2, 2, 2, 2, 0, -2],
    [-2, 2, 2, 2, 2, 2, 2, -2],
    [-2, 1, 0, 0, 0, 0, 1, -2],
    [-4, -2, -2, -2, -2, -2, -2, -4],
];

/// Bonus for Black bishops, in half points.
pub const BLACK_BISHOP_POSITION_WEIGHTS: [[i32; 8]; 8] = [
    [-4, -2, -2, -2, -2, -2, -2, -4],
    [-2, 1, 0, 0, 0, 0, 1, -2],
    [-2, 2, 2, 2, 2, 2, 2, -2],
    [-2, 0, 2, 2, 2, 2, 0, -2],
    [-2, 1, 1, 2, 2, 1, 1, -2],
    [-2, 0, 1, 2, 2, 1, 0, -2],
    [-2, 0, 0, 0, 0, 0, 0, -2],
    [-4, -2, -2, -2, -2, -2, -2, -4],
];

/// Bonus for White knights, in half points.
pub const WHITE_KNIGHT_POSITION_WEIGHTS: [[i32; 8]; 8] = [
    [-10, -8, -6, -6, -6, -6, -8, -10],
    [-8, -4, 0, 0, 0, 0, -4, -8],
    [-6, 0, 2, 3, 3, 2, 0, -6],
    [-6, 1, 3, 4, 4, 3, 1, -6],
    [-6, 0, 3, 4, 4, 3, 0, -6],
    [-6, 1, 2, 3, 3, 2, 1, -6],
    [-8, -4, 0, 1, 1, 0, -4, -8],
    [-10, -8, -6, -6, -6, -6, -8, -10],
];

/// Bonus for Black knights, in half points.
pub const BLACK_KNIGHT_POSITION_WEIGHTS: [[i32; 8]; 8] = [
    [-10, -8, -6, -6, -6, -6, -8, -10],
    [-8, -4, 0, 1, 1, 0, -4, -8],
    [-6, 1, 2, 3, 3, 2, 1, -6],
    [-6, 0, 3, 4, 4, 3, 0, -6],
    [-6, 1, 3, 4, 4, 3, 1, -6],
    [-6, 0, 2, 3, 3, 2, 0, -6],
    [-8, -4, 0, 0, 0, 0, -4, -8],
    [-10, -8, -6, -6, -6, -6, -8, -10],
];

/// Bonus for White pawns, in half points.
pub const WHITE_PAWN_POSITION_WEIGHTS: [[i32; 8]; 8] = [
    [0, 0, 0, 0, 0, 0, 0, 0],
    [10, 10, 10, 10, 10, 10, 10, 10],
    [2, 2, 4, 6, 6, 4, 2, 2],
    [1, 1, 2, 5, 5, 2, 1, 1],
    [0, 0, 0, 4, 4, 0, 0, 0],
    [1, -1, -2, 0, 0, -2, -1, 1],
    [1, 3, -2, -4, -4, 2, 3, 1],
    [0, 0, 0, 0, 0, 0, 0, 0],
];

/// Bonus for Black pawns, in half points.
pub const BLACK_PAWN_POSITION_WEIGHTS: [[i32; 8]; 8] = [
    [0, 0, 0, 0, 0, 0, 0, 0],
    [1, 3, -2, -4, -4, 2, 3, 1],
    [1, -1, -2, 0, 0, -2, -1, 1],
    [0, 0, 0, 4, 4, 0, 0, 0],
    [1, 1, 2, 5, 5, 2, 1, 1],
    [2, 2, 4, 6, 6, 4, 2, 2],
    [10, 10, 10, 10, 10, 10, 10, 10],
    [0, 0, 0, 0, 0, 0, 0, 0],
];

} // verus!
