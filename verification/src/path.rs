//! Obstruction of the line between two squares.
//!
//! Two squares are joined by a line when they share a rank, share a file, or
//! lie on a common diagonal. The path between them is the set of squares on
//! that line strictly between the two; the end squares never belong to it.

use vstd::prelude::*;
use crate::occupancy::color_of_square;
use crate::pieces::Piece;

verus! {

/// Whether `m` lies strictly between `a` and `b`, in either direction.
pub open spec fn between(a: int, m: int, b: int) -> bool {
    (a < m && m < b) || (b < m && m < a)
}

/// The distance between two coordinates.
pub open spec fn distance(a: int, b: int) -> int {
    if a <= b {
        b - a
    } else {
        a - b
    }
}

/// Whether `sq` lies on the path from `begin` to `end`: strictly between
/// them on their common rank, file or diagonal. Squares that no line joins
/// have an empty path.
pub open spec fn on_path(begin: (u8, u8), end: (u8, u8), sq: (u8, u8)) -> bool {
    ||| begin.0 == end.0 && sq.0 == begin.0 && between(begin.1 as int, sq.1 as int, end.1 as int)
    ||| begin.1 == end.1 && sq.1 == begin.1 && between(begin.0 as int, sq.0 as int, end.0 as int)
    ||| {
        &&& distance(begin.0 as int, end.0 as int) == distance(begin.1 as int, end.1 as int)
        &&& between(begin.0 as int, sq.0 as int, end.0 as int)
        &&& between(begin.1 as int, sq.1 as int, end.1 as int)
        &&& distance(begin.0 as int, sq.0 as int) == distance(begin.1 as int, sq.1 as int)
    }
}

/// Whether no piece of `pieces` stands on the path from `begin` to `end`.
pub open spec fn spec_is_path_empty(begin: (u8, u8), end: (u8, u8), pieces: Seq<Piece>) -> bool {
    forall|i: int|
        0 <= i < pieces.len() ==> !on_path(begin, end, ((#[trigger] pieces[i]).x, pieces[i].y))
}

/// The coordinate `k` steps from `from` in the direction of `to`.
pub open spec fn toward(from: u8, to: u8, k: int) -> int {
    if from < to {
        from + k
    } else {
        from - k
    }
}

/// The distance between two coordinates.
pub fn coordinate_distance(a: u8, b: u8) -> (d: u8)
    ensures
        d == distance(a as int, b as int),
{
    if a <= b {
        b - a
    } else {
        a - b
    }
}

/// Whether no piece stands strictly between `begin` and `end` on the rank,
/// file or diagonal that joins them. The end squares are not looked at, and
/// the answer is `true` where no such line joins the two.
pub fn is_path_empty(begin: (u8, u8), end: (u8, u8), pieces: &Vec<Piece>) -> (clear: bool)
    ensures
        clear == spec_is_path_empty(begin, end, pieces@),
{
    // Along a rank.
    if begin.0 == end.0 {
        let mut i: usize = 0;
        while i < pieces.len()
            invariant
                i <= pieces.len(),
                begin.0 == end.0,
                forall|j: int|
                    0 <= j < i ==> !((#[trigger] pieces@[j]).x == begin.0 && between(
                        begin.1 as int,
                        pieces@[j].y as int,
                        end.1 as int,
                    )),
            decreases pieces.len() - i,
        {
            let piece = &pieces[i];
            if piece.x == begin.0 && ((piece.y > begin.1 && piece.y < end.1) || (piece.y > end.1
                && piece.y < begin.1)) {
                return false;
            }
            i += 1;
        }
    }
    // Along a file.
    if begin.1 == end.1 {
        let mut i: usize = 0;
        while i < pieces.len()
            invariant
                i <= pieces.len(),
                begin.1 == end.1,
                forall|j: int|
                    0 <= j < i ==> !((#[trigger] pieces@[j]).y == begin.1 && between(
                        begin.0 as int,
                        pieces@[j].x as int,
                        end.0 as int,
                    )),
            decreases pieces.len() - i,
        {
            let piece = &pieces[i];
            if piece.y == begin.1 && ((piece.x > begin.0 && piece.x < end.0) || (piece.x > end.0
                && piece.x < begin.0)) {
                return false;
            }
            i += 1;
        }
    }
    // Along a diagonal, one square at a time.
    let x_diff = coordinate_distance(begin.0, end.0);
    let y_diff = coordinate_distance(begin.1, end.1);
    if x_diff == y_diff {
        let mut i: u8 = 1;
        while i < x_diff
            invariant
                1 <= i,
                x_diff == distance(begin.0 as int, end.0 as int),
                x_diff == distance(begin.1 as int, end.1 as int),
                forall|j: int, k: int|
                    0 <= j < pieces@.len() && 1 <= k < i ==> !((#[trigger] pieces@[j]).x == toward(
                        begin.0,
                        end.0,
                        k,
                    ) && pieces@[j].y == #[trigger] toward(begin.1, end.1, k)),
            decreases x_diff - i,
        {
            let pos = if begin.0 < end.0 && begin.1 < end.1 {
                (begin.0 + i, begin.1 + i)
            } else if begin.0 < end.0 && begin.1 > end.1 {
                (begin.0 + i, begin.1 - i)
            } else if begin.0 > end.0 && begin.1 < end.1 {
                (begin.0 - i, begin.1 + i)
            } else {
                (begin.0 - i, begin.1 - i)
            };
            if color_of_square(pos, pieces).is_some() {
                return false;
            }
            i += 1;
        }
    }
    proof {
        // A piece on the diagonal stands as many files from `begin` as ranks,
        // on one of the squares that the walk has found empty.
        assert forall|j: int| 0 <= j < pieces@.len() implies !on_path(
            begin,
            end,
            ((#[trigger] pieces@[j]).x, pieces@[j].y),
        ) by {
            let p = pieces@[j];
            let k = distance(begin.0 as int, p.x as int);
            if x_diff == y_diff && between(begin.0 as int, p.x as int, end.0 as int) && between(
                begin.1 as int,
                p.y as int,
                end.1 as int,
            ) && k == distance(begin.1 as int, p.y as int) {
                assert(p.y == toward(begin.1, end.1, k));
            }
        }
    }
    true
}

} // verus!
