//! What the players are told in words.

use vstd::prelude::*;
use vstd::string::StringExecFns;
use crate::game::PlayerTurn;
use crate::pieces::PieceColor;

verus! {

/// The line that says whose move it is.
pub open spec fn spec_next_move_text(turn: PlayerTurn) -> Seq<char> {
    "Next move: "@ + turn.color.spec_name()
}

/// The line that says who has won.
pub open spec fn spec_winner_text(winner: PieceColor) -> Seq<char> {
    winner.spec_name() + " won! Thanks for playing!"@
}

/// The line that says whose move it is.
pub fn next_move_text(turn: &PlayerTurn) -> (text: String)
    ensures
        text@ == spec_next_move_text(*turn),
{
    let mut text = String::from_str("Next move: ");
    text.append(turn.color.name());
    text
}

/// The line that says who has won.
pub fn winner_text(winner: PieceColor) -> (text: String)
    ensures
        text@ == spec_winner_text(winner),
{
    let mut text = String::from_str(winner.name());
    text.append(" won! Thanks for playing!");
    text
}

} // verus!
