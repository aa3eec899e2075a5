//! Choosing a piece and then a square to send it to.
//!
//! A player picks by pointing at squares and at pieces. The first thing
//! pointed at picks a piece, if it is of the colour to move; the next one
//! says where that piece is to go, and the choice starts over.

use vstd::prelude::*;
use crate::board::{spec_entry_at, spec_piece_of, Board, Entry};
use crate::game::{AttemptMove, PlayerTurn};
use crate::pieces::{PieceColor, Square};

verus! {

/// The square that was pointed at last, by the identifier its owner knows
/// it under.
#[derive(Clone, Copy, Debug, PartialEq, Eq, Structural)]
pub struct SelectedSquare {
    pub entity: Option<u64>,
}

/// The piece that has been picked to move, by its identifier.
#[derive(Clone, Copy, Debug, PartialEq, Eq, Structural)]
pub struct SelectedPiece {
    pub entity: Option<u64>,
}

impl Default for SelectedSquare {
    /// No square selected.
    fn default() -> (selected: Self)
        ensures
            selected.entity is None,
    {
        SelectedSquare { entity: None }
    }
}

impl Default for SelectedPiece {
    /// No piece selected.
    fn default() -> (selected: Self)
        ensures
            selected.entity is None,
    {
        SelectedPiece { entity: None }
    }
}

/// The identifier of the piece of `color` on `square`, if one stands there.
pub open spec fn spec_pick(square: Square, color: PieceColor, entries: Seq<Entry>) -> Option<u64> {
    match spec_entry_at((square.x, square.y), entries) {
        Some(entry) => if entry.piece.color == color {
            Some(entry.id)
        } else {
            None
        },
        None => None,
    }
}

/// The identifier of the piece of `color` on `square`, if one stands there.
pub fn pick(square: Square, color: PieceColor, board: &Board) -> (picked: Option<u64>)
    ensures
        picked == spec_pick(square, color, board@),
{
    match board.entry_at((square.x, square.y)) {
        Some(entry) => if entry.piece.color == color {
            Some(entry.id)
        } else {
            None
        },
        None => None,
    }
}

/// Takes note that `target` was pointed at, where `square` is the square
/// that `target` stands for, or `None` if it stands for none.
///
/// Where `target` is no square, it is remembered and nothing else happens.
/// Where a piece was picked before, the move of that piece to `square` is
/// returned and the selection is cleared. Otherwise `target` is remembered,
/// and the piece on `square` is picked if it is of the colour to move.
pub fn select(
    selected_square: &mut SelectedSquare,
    selected_piece: &mut SelectedPiece,
    turn: &PlayerTurn,
    board: &Board,
    target: u64,
    square: Option<Square>,
) -> (attempt: Option<AttemptMove>)
    ensures
        match (square, old(selected_piece).entity) {
            (None, _) => {
                &&& attempt is None
                &&& final(selected_square).entity == Some(target)
                &&& *final(selected_piece) == *old(selected_piece)
            },
            (Some(to), Some(piece)) => {
                &&& attempt == Some(AttemptMove { piece, square: to })
                &&& final(selected_square).entity is None
                &&& final(selected_piece).entity is None
            },
            (Some(to), None) => {
                &&& attempt is None
                &&& final(selected_square).entity == Some(target)
                &&& final(selected_piece).entity == spec_pick(to, turn.color, board@)
            },
        },
{
    selected_square.entity = Some(target);
    let to = match square {
        Some(to) => to,
        None => {
            return None;
        },
    };
    match selected_piece.entity {
        Some(piece) => {
            selected_square.entity = None;
            selected_piece.entity = None;
            Some(AttemptMove { piece, square: to })
        },
        None => {
            selected_piece.entity = pick(to, turn.color, board);
            None
        },
    }
}

/// Takes note that the piece that goes by `target` was pointed at.
///
/// Where no piece was picked before, `target` is picked if it is in play
/// and of the colour to move. Where one was, and `target` is in play, the
/// move of the picked piece to the square of `target` is returned and the
/// selection is cleared. Where `target` is not in play, nothing happens.
pub fn select_piece(
    selected_square: &mut SelectedSquare,
    selected_piece: &mut SelectedPiece,
    turn: &PlayerTurn,
    board: &Board,
    target: u64,
) -> (attempt: Option<AttemptMove>)
    ensures
        match (old(selected_piece).entity, spec_piece_of(target, board@)) {
            (None, Some(piece)) => {
                &&& attempt is None
                &&& *final(selected_square) == *old(selected_square)
                &&& final(selected_piece).entity == (if piece.color == turn.color {
                    Some(target)
                } else {
                    None
                })
            },
            (Some(picked), Some(piece)) => {
                &&& attempt == Some(
                    AttemptMove { piece: picked, square: Square { x: piece.x, y: piece.y } },
                )
                &&& final(selected_square).entity is None
                &&& final(selected_piece).entity is None
            },
            (_, None) => {
                &&& attempt is None
                &&& *final(selected_square) == *old(selected_square)
                &&& *final(selected_piece) == *old(selected_piece)
            },
        },
{
    let piece = match board.get(target) {
        Some(piece) => piece,
        None => {
            return None;
        },
    };
    match selected_piece.entity {
        None => {
            if piece.color == turn.color {
                selected_piece.entity = Some(target);
            }
            None
        },
        Some(picked) => {
            selected_piece.entity = None;
            selected_square.entity = None;
            Some(AttemptMove { piece: picked, square: Square { x: piece.x, y: piece.y } })
        },
    }
}

} // verus!
