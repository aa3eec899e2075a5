//! Which piece, if any, stands on a square.
//!
//! A position is a collection of pieces in which order carries no meaning.
//! Where a collection holds several pieces on one square, the queries below
//! answer with the one that comes first; on a board kept by
//! [`crate::board::Board`] no square ever holds two.

use vstd::prelude::*;
use crate::pieces::{Piece, PieceColor};

verus! {

/// Whether some piece of `pieces` stands on `pos`.
pub open spec fn occupied(pos: (u8, u8), pieces: Seq<Piece>) -> bool {
    exists|i: int| 0 <= i < pieces.len() && (#[trigger] pieces[i]).is_at(pos)
}

/// Whether `pieces[i]` is the first piece of `pieces` that stands on `pos`.
pub open spec fn is_first_at(pos: (u8, u8), pieces: Seq<Piece>, i: int) -> bool {
    &&& 0 <= i < pieces.len()
    &&& pieces[i].is_at(pos)
    &&& forall|j: int| 0 <= j < i ==> !(#[trigger] pieces[j]).is_at(pos)
}

/// The index in `pieces` of the piece on `pos`: that of the first one that
/// stands there, or `None` where the square is empty.
pub open spec fn spec_index_at(pos: (u8, u8), pieces: Seq<Piece>) -> Option<int> {
    if occupied(pos, pieces) {
        Some(choose|i: int| is_first_at(pos, pieces, i))
    } else {
        None
    }
}

/// The piece on `pos`, or `None` where the square is empty.
pub open spec fn spec_piece_at(pos: (u8, u8), pieces: Seq<Piece>) -> Option<Piece> {
    match spec_index_at(pos, pieces) {
        Some(i) => Some(pieces[i]),
        None => None,
    }
}

/// The colour of the piece on `pos`, or `None` where the square is empty.
pub open spec fn spec_color_of_square(pos: (u8, u8), pieces: Seq<Piece>) -> Option<PieceColor> {
    match spec_piece_at(pos, pieces) {
        Some(piece) => Some(piece.color),
        None => None,
    }
}

/// The first piece on a square is the one that the queries name.
pub proof fn lemma_first_is_piece_at(pos: (u8, u8), pieces: Seq<Piece>, i: int)
    requires
        is_first_at(pos, pieces, i),
    ensures
        occupied(pos, pieces),
        spec_index_at(pos, pieces) == Some(i),
        spec_piece_at(pos, pieces) == Some(pieces[i]),
        spec_color_of_square(pos, pieces) == Some(pieces[i].color),
{
    // Two first pieces cannot differ: the later would have the earlier below it.
    let k = choose|k: int| is_first_at(pos, pieces, k);
    assert(k == i);
}

/// A square that no piece stands on has no piece and no colour.
pub proof fn lemma_empty_square(pos: (u8, u8), pieces: Seq<Piece>)
    requires
        forall|i: int| 0 <= i < pieces.len() ==> !(#[trigger] pieces[i]).is_at(pos),
    ensures
        !occupied(pos, pieces),
        spec_index_at(pos, pieces) is None,
        spec_piece_at(pos, pieces) is None,
        spec_color_of_square(pos, pieces) is None,
{
}

/// Where a square is occupied, the index that the queries name is that of
/// the first piece on it.
pub proof fn lemma_index_at_is_first(pos: (u8, u8), pieces: Seq<Piece>)
    requires
        occupied(pos, pieces),
    ensures
        spec_index_at(pos, pieces) is Some,
        is_first_at(pos, pieces, spec_index_at(pos, pieces)->0),
{
    let w = choose|i: int| 0 <= i < pieces.len() && (#[trigger] pieces[i]).is_at(pos);
    lemma_some_first_at(pos, pieces, w);
}

/// Below any piece on a square there is a first one.
proof fn lemma_some_first_at(pos: (u8, u8), pieces: Seq<Piece>, w: int)
    requires
        0 <= w < pieces.len(),
        pieces[w].is_at(pos),
    ensures
        exists|i: int| is_first_at(pos, pieces, i),
    decreases w,
{
    if exists|j: int| 0 <= j < w && (#[trigger] pieces[j]).is_at(pos) {
        let j = choose|j: int| 0 <= j < w && (#[trigger] pieces[j]).is_at(pos);
        lemma_some_first_at(pos, pieces, j);
    } else {
        assert(is_first_at(pos, pieces, w));
    }
}

/// The index of the piece standing on `pos`, if any.
pub fn index_at(pos: (u8, u8), pieces: &Vec<Piece>) -> (found: Option<usize>)
    ensures
        match found {
            Some(i) => i < pieces.len() && spec_index_at(pos, pieces@) == Some(i as int),
            None => spec_index_at(pos, pieces@) is None,
        },
{
    let mut i: usize = 0;
    while i < pieces.len()
        invariant
            i <= pieces.len(),
            forall|j: int| 0 <= j < i ==> !(#[trigger] pieces@[j]).is_at(pos),
        decreases pieces.len() - i,
    {
        if pieces[i].is_at(pos) {
            proof {
                lemma_first_is_piece_at(pos, pieces@, i as int);
            }
            return Some(i);
        }
        i += 1;
    }
    proof {
        lemma_empty_square(pos, pieces@);
    }
    None
}

/// The piece standing on `pos`, if any.
pub fn piece_at(pos: (u8, u8), pieces: &Vec<Piece>) -> (found: Option<Piece>)
    ensures
        found == spec_piece_at(pos, pieces@),
{
    match index_at(pos, pieces) {
        Some(i) => Some(pieces[i]),
        None => None,
    }
}

/// The colour of the piece standing on `pos`; `None` where the square is
/// empty.
pub fn color_of_square(pos: (u8, u8), pieces: &Vec<Piece>) -> (color: Option<PieceColor>)
    ensures
        color == spec_color_of_square(pos, pieces@),
{
    match piece_at(pos, pieces) {
        Some(piece) => Some(piece.color),
        None => None,
    }
}

} // verus!
