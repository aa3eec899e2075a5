//! Carrying out a move and keeping the turn.
//!
//! [`move_to_square`] takes one intended move, judges it against the board
//! and the turn, and either carries it out in full or leaves everything as
//! it was and says why. The game ends when a king is taken; from then on
//! every move is turned away.

use vstd::prelude::*;
use crate::board::{
    after_move, holds_id, is_first_of, lemma_holds_id_has_first, lemma_move_keeps_well_formed,
    lemma_piece_on_square_is_unique, pieces_of, relocated, spec_entry_at, spec_index_of,
    well_formed, Board, Entry,
};
use crate::occupancy::{lemma_index_at_is_first, occupied, spec_color_of_square, spec_index_at};
use crate::pieces::{Piece, PieceColor, PieceType, Square};

verus! {

/// Why a move was turned away.
#[derive(Clone, Copy, Debug, PartialEq, Eq, Structural)]
pub enum MoveError {
    /// No piece in play goes by the identifier given.
    UnresolvedReference,
    /// The piece's kind does not allow the move.
    IllegalGeometry,
    /// A piece of the mover's own colour stands on the destination.
    OccupiedBySameColor,
    /// The destination is not a square of the board.
    InvalidCoordinate,
    /// A king has been taken and the game is over.
    GameAlreadyOver,
}

/// Whose turn it is, and who has won once the game is over.
#[derive(Clone, Copy, Debug, PartialEq, Eq, Structural)]
pub struct PlayerTurn {
    /// The colour to move next, while the game is on.
    pub color: PieceColor,
    /// The colour that took the other's king, once that has happened.
    pub winner: Option<PieceColor>,
}

impl Default for PlayerTurn {
    /// The turn at the start of a game: White to move, nobody has won.
    fn default() -> (turn: Self)
        ensures
            turn == (PlayerTurn { color: PieceColor::White, winner: None }),
    {
        PlayerTurn { color: PieceColor::White, winner: None }
    }
}

impl PlayerTurn {
    /// Whether the game is over.
    pub open spec fn spec_is_over(&self) -> bool {
        self.winner is Some
    }

    /// Whether the game is over.
    #[verifier::when_used_as_spec(spec_is_over)]
    pub fn is_over(&self) -> (over: bool)
        ensures
            over == self.spec_is_over(),
    {
        self.winner.is_some()
    }
}

/// An intended move: the identifier of the piece to move, and the square it
/// is to go to.
#[derive(Clone, Copy, Debug, PartialEq, Eq, Structural)]
pub struct AttemptMove {
    pub piece: u64,
    pub square: Square,
}

/// A move that was carried out.
#[derive(Clone, Copy, Debug, PartialEq, Eq, Structural)]
pub struct Move {
    /// The piece as it was before it moved.
    pub piece: Piece,
    /// The square it went to.
    pub square: Square,
    /// The piece it took, as it was, if it took one.
    pub captured: Option<Entry>,
    /// The mover's colour, if the move took a king and so ended the game.
    pub winner: Option<PieceColor>,
}

/// The reason for which `attempt` is turned away, or `None` where it is
/// carried out. The reasons are tried in this order: the game is over; the
/// destination is off the board; the piece is not in play; its own colour
/// holds the destination; its kind does not allow the move.
pub open spec fn rejection(
    entries: Seq<Entry>,
    turn: PlayerTurn,
    attempt: AttemptMove,
) -> Option<MoveError> {
    let dest = (attempt.square.x, attempt.square.y);
    if turn.is_over() {
        Some(MoveError::GameAlreadyOver)
    } else if !attempt.square.is_valid() {
        Some(MoveError::InvalidCoordinate)
    } else {
        match spec_index_of(attempt.piece, entries) {
            None => Some(MoveError::UnresolvedReference),
            Some(i) => {
                let piece = entries[i].piece;
                if spec_color_of_square(dest, pieces_of(entries)) == Some(piece.color) {
                    Some(MoveError::OccupiedBySameColor)
                } else if !piece.spec_is_move_valid(dest, pieces_of(entries)) {
                    Some(MoveError::IllegalGeometry)
                } else {
                    None
                }
            },
        }
    }
}

/// Whether `attempt` is carried out.
pub open spec fn accepted(entries: Seq<Entry>, turn: PlayerTurn, attempt: AttemptMove) -> bool {
    rejection(entries, turn, attempt) is None
}

/// The piece that `attempt` names, where it is in play.
pub open spec fn mover(entries: Seq<Entry>, attempt: AttemptMove) -> Piece {
    entries[spec_index_of(attempt.piece, entries)->0].piece
}

/// The entry that `attempt` takes: the one on its destination, if any.
pub open spec fn taken(entries: Seq<Entry>, attempt: AttemptMove) -> Option<Entry> {
    spec_entry_at((attempt.square.x, attempt.square.y), entries)
}

/// Whether `attempt` takes a king.
pub open spec fn takes_king(entries: Seq<Entry>, attempt: AttemptMove) -> bool {
    match taken(entries, attempt) {
        Some(entry) => entry.piece.piece_type == PieceType::King,
        None => false,
    }
}

/// The pieces in play after `attempt` has been carried out.
pub open spec fn board_after(entries: Seq<Entry>, attempt: AttemptMove) -> Seq<Entry> {
    after_move(
        entries,
        spec_index_of(attempt.piece, entries)->0,
        (attempt.square.x, attempt.square.y),
    )
}

/// The turn after `attempt` has been carried out: the mover has won if it
/// took a king, and otherwise the other colour is to move.
pub open spec fn turn_after(
    entries: Seq<Entry>,
    turn: PlayerTurn,
    attempt: AttemptMove,
) -> PlayerTurn {
    if takes_king(entries, attempt) {
        PlayerTurn { color: turn.color, winner: Some(mover(entries, attempt).color) }
    } else {
        PlayerTurn { color: turn.color.opposite(), winner: None }
    }
}

/// The account of `attempt` once carried out.
pub open spec fn outcome(entries: Seq<Entry>, attempt: AttemptMove) -> Move {
    Move {
        piece: mover(entries, attempt),
        square: attempt.square,
        captured: taken(entries, attempt),
        winner: if takes_king(entries, attempt) {
            Some(mover(entries, attempt).color)
        } else {
            None
        },
    }
}

/// Board and turn after `attempt` has been dealt with: changed as the move
/// asks where it is accepted, and as they were where it is turned away.
pub open spec fn state_after(
    entries: Seq<Entry>,
    turn: PlayerTurn,
    attempt: AttemptMove,
) -> (Seq<Entry>, PlayerTurn) {
    if accepted(entries, turn, attempt) {
        (board_after(entries, attempt), turn_after(entries, turn, attempt))
    } else {
        (entries, turn)
    }
}

/// Board and turn after each of `attempts` has been dealt with in order.
pub open spec fn state_after_all(
    entries: Seq<Entry>,
    turn: PlayerTurn,
    attempts: Seq<AttemptMove>,
) -> (Seq<Entry>, PlayerTurn)
    decreases attempts.len(),
{
    if attempts.len() == 0 {
        (entries, turn)
    } else {
        let next = state_after(entries, turn, attempts[0]);
        state_after_all(next.0, next.1, attempts.drop_first())
    }
}

/// An accepted move names a piece in play, which goes to another square of
/// the board, and whatever it takes is of the other colour.
pub proof fn lemma_accepted_move(entries: Seq<Entry>, turn: PlayerTurn, attempt: AttemptMove)
    requires
        well_formed(entries),
        accepted(entries, turn, attempt),
    ensures
        holds_id(attempt.piece, entries),
        0 <= spec_index_of(attempt.piece, entries)->0 < entries.len(),
        entries[spec_index_of(attempt.piece, entries)->0].id == attempt.piece,
        attempt.square.is_valid(),
        !mover(entries, attempt).is_at((attempt.square.x, attempt.square.y)),
        taken(entries, attempt) is Some ==> taken(entries, attempt)->0.piece.color == mover(
            entries,
            attempt,
        ).color.opposite(),
        taken(entries, attempt) is Some <==> occupied(
            (attempt.square.x, attempt.square.y),
            pieces_of(entries),
        ),
{
    let dest = (attempt.square.x, attempt.square.y);
    let i = choose|i: int| is_first_of(attempt.piece, entries, i);
    lemma_holds_id_has_first(attempt.piece, entries);
    if entries[i].piece.is_at(dest) {
        lemma_piece_on_square_is_unique(dest, entries, i);
    }
    if occupied(dest, pieces_of(entries)) {
        lemma_index_at_is_first(dest, pieces_of(entries));
    }
}

/// Carries out `attempt` on `board`, or turns it away.
///
/// Where the move is accepted, the piece on the destination, if any, leaves
/// the board, the mover goes there, and the turn passes to the other colour,
/// unless a king was taken: then the mover's colour has won. Where the move
/// is turned away, board and turn stay as they were.
pub fn move_to_square(
    board: &mut Board,
    turn: &mut PlayerTurn,
    attempt: AttemptMove,
) -> (result: Result<Move, MoveError>)
    ensures
        result == (match rejection(old(board)@, *old(turn), attempt) {
            Some(reason) => Err::<Move, MoveError>(reason),
            None => Ok(outcome(old(board)@, attempt)),
        }),
        (final(board)@, *final(turn)) == state_after(old(board)@, *old(turn), attempt),
        well_formed(final(board)@),
{
    let ghost before = board@;
    let ghost turn_before = *turn;
    let dest = (attempt.square.x, attempt.square.y);
    proof {
        use_type_invariant(&*board);
    }
    if turn.is_over() {
        return Err(MoveError::GameAlreadyOver);
    }
    if !attempt.square.is_valid() {
        return Err(MoveError::InvalidCoordinate);
    }
    let index = match board.index_of(attempt.piece) {
        Some(index) => index,
        None => {
            return Err(MoveError::UnresolvedReference);
        },
    };
    let piece = board.entries()[index].piece;
    match board.color_at(dest) {
        Some(color) => {
            if color == piece.color {
                return Err(MoveError::OccupiedBySameColor);
            }
        },
        None => {},
    }
    if !piece.is_move_valid(dest, board.all_pieces()) {
        return Err(MoveError::IllegalGeometry);
    }
    proof {
        lemma_accepted_move(before, turn_before, attempt);
    }
    let captured = board.entry_at(dest);
    let winner = match captured {
        Some(entry) => match entry.piece.piece_type {
            PieceType::King => Some(piece.color),
            _ => None,
        },
        None => None,
    };
    board.apply_move(index, dest);
    match winner {
        Some(_) => {
            turn.winner = winner;
        },
        None => {
            turn.color = turn.color.opposite();
        },
    }
    Ok(Move { piece, square: attempt.square, captured, winner })
}

/// What a player at a distance is told of a move they asked for.
#[derive(Clone, Copy, Debug, PartialEq, Eq, Structural)]
pub struct MoveResponse {
    /// Whether the move was carried out.
    pub accepted: bool,
    /// The kind of the piece it took, if it took one.
    pub captured_kind: Option<PieceType>,
    /// The winner, once the game is over.
    pub game_over: Option<PieceColor>,
}

/// The answer to a request to move `piece` to rank `rank`, file `file`.
pub open spec fn response_to(
    entries: Seq<Entry>,
    turn: PlayerTurn,
    attempt: AttemptMove,
) -> MoveResponse {
    MoveResponse {
        accepted: accepted(entries, turn, attempt),
        captured_kind: if accepted(entries, turn, attempt) {
            match taken(entries, attempt) {
                Some(entry) => Some(entry.piece.piece_type),
                None => None,
            }
        } else {
            None
        },
        game_over: state_after(entries, turn, attempt).1.winner,
    }
}

/// Deals with a request to move the piece that goes by `piece` to rank
/// `rank`, file `file`, as [`move_to_square`] does, and says what to answer.
pub fn attempt_move(
    board: &mut Board,
    turn: &mut PlayerTurn,
    piece: u64,
    rank: u8,
    file: u8,
) -> (response: MoveResponse)
    ensures
        response == response_to(
            old(board)@,
            *old(turn),
            AttemptMove { piece, square: Square { x: rank, y: file } },
        ),
        (final(board)@, *final(turn)) == state_after(
            old(board)@,
            *old(turn),
            AttemptMove { piece, square: Square { x: rank, y: file } },
        ),
        well_formed(final(board)@),
{
    let attempt = AttemptMove { piece, square: Square { x: rank, y: file } };
    match move_to_square(board, turn, attempt) {
        Ok(done) => MoveResponse {
            accepted: true,
            captured_kind: match done.captured {
                Some(entry) => Some(entry.piece.piece_type),
                None => None,
            },
            game_over: turn.winner,
        },
        Err(_) => MoveResponse { accepted: false, captured_kind: None, game_over: turn.winner },
    }
}

/// However a move is dealt with, the pieces stay well formed: each on a
/// square of the board, no two on the same square.
pub proof fn lemma_move_keeps_pieces_apart(
    entries: Seq<Entry>,
    turn: PlayerTurn,
    attempt: AttemptMove,
)
    requires
        well_formed(entries),
    ensures
        well_formed(state_after(entries, turn, attempt).0),
{
    if accepted(entries, turn, attempt) {
        lemma_accepted_move(entries, turn, attempt);
        lemma_move_keeps_well_formed(
            entries,
            spec_index_of(attempt.piece, entries)->0,
            (attempt.square.x, attempt.square.y),
        );
    }
}

/// After any sequence of moves, accepted or not, the pieces are well formed:
/// each on a square of the board, no two on the same square.
pub proof fn lemma_moves_keep_pieces_apart(
    entries: Seq<Entry>,
    turn: PlayerTurn,
    attempts: Seq<AttemptMove>,
)
    requires
        well_formed(entries),
    ensures
        well_formed(state_after_all(entries, turn, attempts).0),
    decreases attempts.len(),
{
    if attempts.len() > 0 {
        lemma_move_keeps_pieces_apart(entries, turn, attempts[0]);
        let next = state_after(entries, turn, attempts[0]);
        lemma_moves_keep_pieces_apart(next.0, next.1, attempts.drop_first());
    }
}

/// A move that is turned away changes neither the board nor the turn.
pub proof fn lemma_rejected_move_changes_nothing(
    entries: Seq<Entry>,
    turn: PlayerTurn,
    attempt: AttemptMove,
)
    requires
        !accepted(entries, turn, attempt),
    ensures
        state_after(entries, turn, attempt) == (entries, turn),
{
}

/// An accepted move that takes no king passes the turn to the other colour
/// and leaves the game on. A second such move passes it back.
pub proof fn lemma_turn_passes_with_each_move(
    entries: Seq<Entry>,
    turn: PlayerTurn,
    first: AttemptMove,
    second: AttemptMove,
)
    requires
        accepted(entries, turn, first),
        !takes_king(entries, first),
    ensures
        state_after(entries, turn, first).1.color == turn.color.opposite(),
        state_after(entries, turn, first).1.color != turn.color,
        !state_after(entries, turn, first).1.is_over(),
        ({
            let next = state_after(entries, turn, first);
            accepted(next.0, next.1, second) && !takes_king(next.0, second) ==> state_after(
                next.0,
                next.1,
                second,
            ).1.color == turn.color
        }),
{
}

/// An accepted move onto an occupied square takes exactly one piece off the
/// board, which is the one that stood there and is of the other colour; an
/// accepted move onto an empty square takes none.
pub proof fn lemma_capture_takes_one_piece(
    entries: Seq<Entry>,
    turn: PlayerTurn,
    attempt: AttemptMove,
)
    requires
        well_formed(entries),
        accepted(entries, turn, attempt),
    ensures
        match taken(entries, attempt) {
            Some(entry) => {
                &&& state_after(entries, turn, attempt).0.len() == entries.len() - 1
                &&& entry.piece.is_at((attempt.square.x, attempt.square.y))
                &&& entry.piece.color == mover(entries, attempt).color.opposite()
                &&& !holds_id(entry.id, state_after(entries, turn, attempt).0)
            },
            None => state_after(entries, turn, attempt).0.len() == entries.len(),
        },
        spec_entry_at((attempt.square.x, attempt.square.y), state_after(entries, turn, attempt).0)
            == Some(
            Entry {
                id: attempt.piece,
                piece: relocated(
                    mover(entries, attempt),
                    (attempt.square.x, attempt.square.y),
                ),
            },
        ),
{
    let dest = (attempt.square.x, attempt.square.y);
    let index = spec_index_of(attempt.piece, entries)->0;
    lemma_accepted_move(entries, turn, attempt);
    lemma_move_keeps_well_formed(entries, index, dest);
    let after = board_after(entries, attempt);
    match spec_index_at(dest, pieces_of(entries)) {
        Some(gone) => {
            // The mover has moved down one place if the piece taken stood before it.
            lemma_index_at_is_first(dest, pieces_of(entries));
            let now = if index < gone {
                index
            } else {
                index - 1
            };
            lemma_piece_on_square_is_unique(dest, after, now);
        },
        None => {
            lemma_piece_on_square_is_unique(dest, after, index);
        },
    }
}

/// An accepted move that takes a king ends the game in favour of the mover's
/// colour, and from then on every move is turned away because the game is
/// over, whatever it is and whoever makes it.
pub proof fn lemma_king_capture_ends_game(
    entries: Seq<Entry>,
    turn: PlayerTurn,
    attempt: AttemptMove,
    later: AttemptMove,
)
    requires
        accepted(entries, turn, attempt),
        takes_king(entries, attempt),
    ensures
        state_after(entries, turn, attempt).1.winner == Some(mover(entries, attempt).color),
        state_after(entries, turn, attempt).1.is_over(),
        ({
            let ended = state_after(entries, turn, attempt);
            &&& rejection(ended.0, ended.1, later) == Some(MoveError::GameAlreadyOver)
            &&& state_after(ended.0, ended.1, later) == ended
        }),
{
}

/// Once the game is over, no sequence of moves changes board or turn.
pub proof fn lemma_game_over_is_final(
    entries: Seq<Entry>,
    turn: PlayerTurn,
    attempts: Seq<AttemptMove>,
)
    requires
        turn.is_over(),
    ensures
        state_after_all(entries, turn, attempts) == (entries, turn),
    decreases attempts.len(),
{
    if attempts.len() > 0 {
        lemma_game_over_is_final(entries, turn, attempts.drop_first());
    }
}

} // verus!
