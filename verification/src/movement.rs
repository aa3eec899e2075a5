//! Which moves a piece may make.
//!
//! A move is judged from the piece, the square it is to go to, and the pieces
//! on the board. It is never legal onto a square held by a piece of the
//! mover's own colour. Beyond that each kind of piece has its own rule,
//! stated over the signed change of rank and of file.

use vstd::prelude::*;
use crate::occupancy::{color_of_square, spec_color_of_square};
use crate::path::{is_path_empty, spec_is_path_empty};
use crate::pieces::{Piece, PieceColor, PieceType};

verus! {

/// The magnitude of a coordinate change.
pub open spec fn magnitude(d: int) -> int {
    if d < 0 {
        -d
    } else {
        d
    }
}

/// A king's step: one square along a rank, a file or a diagonal.
pub open spec fn king_step(dx: int, dy: int) -> bool {
    magnitude(dx) <= 1 && magnitude(dy) <= 1 && (dx != 0 || dy != 0)
}

/// A knight's jump: two squares one way and one square the other.
pub open spec fn knight_jump(dx: int, dy: int) -> bool {
    (magnitude(dx) == 2 && magnitude(dy) == 1) || (magnitude(dx) == 1 && magnitude(dy) == 2)
}

/// A move along a rank or a file that leaves the square.
pub open spec fn straight_line(dx: int, dy: int) -> bool {
    (dx == 0 && dy != 0) || (dy == 0 && dx != 0)
}

/// A move that changes rank and file by the same magnitude.
pub open spec fn diagonal_line(dx: int, dy: int) -> bool {
    magnitude(dx) == magnitude(dy)
}

/// A pawn's move. `rank` is the rank it stands on, `target` the colour of the
/// piece on the destination, and `clear` whether the path there is empty.
/// The pawn advances one square onto an empty square, or two from its
/// starting rank over an empty square onto an empty square, or takes a piece
/// of the other colour one square diagonally ahead.
pub open spec fn pawn_move(
    color: PieceColor,
    rank: int,
    dx: int,
    dy: int,
    target: Option<PieceColor>,
    clear: bool,
) -> bool {
    ||| dx == color.forward() && dy == 0 && target is None
    ||| rank == color.pawn_rank() && dx == 2 * color.forward() && dy == 0 && clear && target is None
    ||| dx == color.forward() && magnitude(dy) == 1 && target == Some(color.opposite())
}

/// The rule of each kind of piece, for a change of `dx` ranks and `dy` files.
pub open spec fn kind_allows(
    piece: Piece,
    dx: int,
    dy: int,
    target: Option<PieceColor>,
    clear: bool,
) -> bool {
    match piece.piece_type {
        PieceType::King => king_step(dx, dy),
        PieceType::Queen => clear && (diagonal_line(dx, dy) || straight_line(dx, dy)),
        PieceType::Bishop => clear && diagonal_line(dx, dy),
        PieceType::Knight => knight_jump(dx, dy),
        PieceType::Rook => clear && straight_line(dx, dy),
        PieceType::Pawn => pawn_move(piece.color, piece.x as int, dx, dy, target, clear),
    }
}

/// Whether `dx`, `dy` is a king's step.
pub fn is_king_step(dx: i16, dy: i16) -> (ok: bool)
    ensures
        ok == king_step(dx as int, dy as int),
{
    -1 <= dx && dx <= 1 && -1 <= dy && dy <= 1 && (dx != 0 || dy != 0)
}

/// Whether `dx`, `dy` is a knight's jump.
pub fn is_knight_jump(dx: i16, dy: i16) -> (ok: bool)
    ensures
        ok == knight_jump(dx as int, dy as int),
{
    ((dx == 2 || dx == -2) && (dy == 1 || dy == -1)) || ((dx == 1 || dx == -1) && (dy == 2 || dy
        == -2))
}

/// Whether `dx`, `dy` runs along a rank or a file and leaves the square.
pub fn is_straight_line(dx: i16, dy: i16) -> (ok: bool)
    ensures
        ok == straight_line(dx as int, dy as int),
{
    (dx == 0 && dy != 0) || (dy == 0 && dx != 0)
}

/// Whether `dx`, `dy` changes rank and file by the same magnitude.
pub fn is_diagonal_line(dx: i16, dy: i16) -> (ok: bool)
    ensures
        ok == diagonal_line(dx as int, dy as int),
{
    dx == dy || dx as i32 == -(dy as i32)
}

/// Whether a pawn of `color` on rank `rank` may change rank by `dx` and file
/// by `dy`, given the colour on the destination and whether the path is empty.
pub fn is_pawn_move(
    color: PieceColor,
    rank: u8,
    dx: i16,
    dy: i16,
    target: Option<PieceColor>,
    clear: bool,
) -> (ok: bool)
    ensures
        ok == pawn_move(color, rank as int, dx as int, dy as int, target, clear),
{
    let (forward, home): (i16, u8) = match color {
        PieceColor::White => (1, 1),
        PieceColor::Black => (-1, 6),
    };
    let empty = target.is_none();
    let takes = match target {
        Some(other) => other == color.opposite(),
        None => false,
    };
    (dx == forward && dy == 0 && empty) || (rank == home && dx == 2 * forward && dy == 0 && clear
        && empty) || (dx == forward && (dy == 1 || dy == -1) && takes)
}

impl Piece {
    /// Whether the piece may move to `new_position` on a board that holds
    /// `pieces`: the square is not held by its own colour, and its kind
    /// allows the move.
    pub open spec fn spec_is_move_valid(&self, new_position: (u8, u8), pieces: Seq<Piece>) -> bool {
        let target = spec_color_of_square(new_position, pieces);
        let clear = spec_is_path_empty((self.x, self.y), new_position, pieces);
        let dx = new_position.0 as int - self.x as int;
        let dy = new_position.1 as int - self.y as int;
        target != Some(self.color) && kind_allows(*self, dx, dy, target, clear)
    }

    /// Whether the piece may move to `new_position` on a board that holds
    /// `pieces`. The answer depends on nothing but the three arguments.
    pub fn is_move_valid(&self, new_position: (u8, u8), pieces: Vec<Piece>) -> (valid: bool)
        ensures
            valid == self.spec_is_move_valid(new_position, pieces@),
    {
        let square_color = color_of_square(new_position, &pieces);
        match square_color {
            Some(color) => {
                if color == self.color {
                    return false;
                }
            },
            None => {},
        }
        let dx: i16 = new_position.0 as i16 - self.x as i16;
        let dy: i16 = new_position.1 as i16 - self.y as i16;
        match self.piece_type {
            PieceType::King => is_king_step(dx, dy),
            PieceType::Queen => is_path_empty((self.x, self.y), new_position, &pieces) && (
            is_diagonal_line(dx, dy) || is_straight_line(dx, dy)),
            PieceType::Bishop => is_path_empty((self.x, self.y), new_position, &pieces)
                && is_diagonal_line(dx, dy),
            PieceType::Knight => is_knight_jump(dx, dy),
            PieceType::Rook => is_path_empty((self.x, self.y), new_position, &pieces)
                && is_straight_line(dx, dy),
            PieceType::Pawn => {
                let clear = is_path_empty((self.x, self.y), new_position, &pieces);
                is_pawn_move(self.color, self.x, dx, dy, square_color, clear)
            },
        }
    }
}

} // verus!
