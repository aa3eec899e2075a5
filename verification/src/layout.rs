//! The squares of the board and the position a game starts from.

use vstd::prelude::*;
use crate::board::{pieces_of, well_formed, Board, Entry};
use crate::pieces::{Piece, PieceColor, PieceType, Square, BOARD_SIZE};

verus! {

/// Number of squares on the board.
pub const SQUARE_COUNT: usize = 64;

/// Number of pieces at the start of a game.
pub const PIECE_COUNT: usize = 32;

/// The `k`-th square of the board, counting along the files of rank 0, then
/// of rank 1, and so on.
pub open spec fn nth_square(k: int) -> Square {
    Square { x: (k / 8) as u8, y: (k % 8) as u8 }
}

/// The kind of piece that starts on `file` of its side's back rank.
pub open spec fn back_rank_kind(file: int) -> PieceType {
    if file == 0 || file == 7 {
        PieceType::Rook
    } else if file == 1 || file == 6 {
        PieceType::Knight
    } else if file == 2 || file == 5 {
        PieceType::Bishop
    } else if file == 3 {
        PieceType::Queen
    } else {
        PieceType::King
    }
}

/// The `k`-th piece of the starting position. White's come first, then
/// Black's; of each side, the eight pieces of the back rank by file, then
/// the eight pawns by file.
pub open spec fn starting_piece(k: int) -> Piece {
    let color = if k < 16 {
        PieceColor::White
    } else {
        PieceColor::Black
    };
    let file = k % 8;
    if k % 16 < 8 {
        Piece {
            color,
            piece_type: back_rank_kind(file),
            x: color.back_rank() as u8,
            y: file as u8,
        }
    } else {
        Piece { color, piece_type: PieceType::Pawn, x: color.pawn_rank() as u8, y: file as u8 }
    }
}

/// The starting position.
pub open spec fn starting_position() -> Seq<Piece> {
    Seq::new(PIECE_COUNT as nat, |k: int| starting_piece(k))
}

/// The starting position, each piece under its place in it as identifier.
pub open spec fn starting_entries() -> Seq<Entry> {
    Seq::new(PIECE_COUNT as nat, |k: int| Entry { id: k as u64, piece: starting_piece(k) })
}

/// The squares of the board, rank by rank.
pub fn board_squares() -> (squares: Vec<Square>)
    ensures
        squares@.len() == SQUARE_COUNT,
        forall|k: int| 0 <= k < SQUARE_COUNT ==> #[trigger] squares@[k] == nth_square(k),
{
    let mut squares: Vec<Square> = Vec::new();
    let mut i: u8 = 0;
    while i < BOARD_SIZE
        invariant
            i <= BOARD_SIZE,
            squares@.len() == 8 * i,
            forall|k: int| 0 <= k < squares@.len() ==> #[trigger] squares@[k] == nth_square(k),
        decreases BOARD_SIZE - i,
    {
        let mut j: u8 = 0;
        while j < BOARD_SIZE
            invariant
                i < BOARD_SIZE,
                j <= BOARD_SIZE,
                squares@.len() == 8 * i + j,
                forall|k: int| 0 <= k < squares@.len() ==> #[trigger] squares@[k] == nth_square(k),
            decreases BOARD_SIZE - j,
        {
            squares.push(Square { x: i, y: j });
            j += 1;
        }
        i += 1;
    }
    squares
}

/// The kind of piece that starts on `file` of its side's back rank.
pub fn back_rank_piece(file: u8) -> (kind: PieceType)
    ensures
        kind == back_rank_kind(file as int),
{
    if file == 0 || file == 7 {
        PieceType::Rook
    } else if file == 1 || file == 6 {
        PieceType::Knight
    } else if file == 2 || file == 5 {
        PieceType::Bishop
    } else if file == 3 {
        PieceType::Queen
    } else {
        PieceType::King
    }
}

/// The pieces of one side at the start of a game, added to `pieces`: the
/// back rank by file, then the pawns by file.
fn push_side(pieces: &mut Vec<Piece>, color: PieceColor)
    requires
        old(pieces)@.len() == (if color == PieceColor::White {
            0int
        } else {
            16int
        }),
        forall|k: int|
            0 <= k < old(pieces)@.len() ==> #[trigger] old(pieces)@[k] == starting_piece(k),
    ensures
        final(pieces)@.len() == old(pieces)@.len() + 16,
        forall|k: int|
            0 <= k < final(pieces)@.len() ==> #[trigger] final(pieces)@[k] == starting_piece(k),
{
    let (back, front): (u8, u8) = match color {
        PieceColor::White => (0, 1),
        PieceColor::Black => (7, 6),
    };
    let ghost base = pieces@.len();
    let mut file: u8 = 0;
    while file < BOARD_SIZE
        invariant
            file <= BOARD_SIZE,
            base == (if color == PieceColor::White {
                0int
            } else {
                16int
            }),
            back == color.back_rank(),
            pieces@.len() == base + file,
            forall|k: int| 0 <= k < pieces@.len() ==> #[trigger] pieces@[k] == starting_piece(k),
        decreases BOARD_SIZE - file,
    {
        pieces.push(Piece { color, piece_type: back_rank_piece(file), x: back, y: file });
        file += 1;
    }
    let mut file: u8 = 0;
    while file < BOARD_SIZE
        invariant
            file <= BOARD_SIZE,
            base == (if color == PieceColor::White {
                0int
            } else {
                16int
            }),
            front == color.pawn_rank(),
            pieces@.len() == base + 8 + file,
            forall|k: int| 0 <= k < pieces@.len() ==> #[trigger] pieces@[k] == starting_piece(k),
        decreases BOARD_SIZE - file,
    {
        pieces.push(Piece { color, piece_type: PieceType::Pawn, x: front, y: file });
        file += 1;
    }
}

/// The pieces a game starts with, where they start.
pub fn starting_pieces() -> (pieces: Vec<Piece>)
    ensures
        pieces@ == starting_position(),
{
    let mut pieces: Vec<Piece> = Vec::new();
    push_side(&mut pieces, PieceColor::White);
    push_side(&mut pieces, PieceColor::Black);
    pieces
}

/// The starting position has each piece on a square of the board and no two
/// on the same square.
pub proof fn lemma_starting_position_is_well_formed()
    ensures
        well_formed(starting_entries()),
        pieces_of(starting_entries()) == starting_position(),
{
}

impl Board {
    /// The board at the start of a game. The identifier of each piece is
    /// its place in the starting position, from 0.
    pub fn standard() -> (board: Board)
        ensures
            board@ == starting_entries(),
    {
        let pieces = starting_pieces();
        let mut board = Board::new();
        let mut k: usize = 0;
        proof {
            lemma_starting_position_is_well_formed();
        }
        while k < PIECE_COUNT
            invariant
                k <= PIECE_COUNT,
                pieces@ == starting_position(),
                well_formed(starting_entries()),
                board@ == starting_entries().take(k as int),
            decreases PIECE_COUNT - k,
        {
            let piece = pieces[k];
            board.place(k as u64, piece);
            k += 1;
        }
        board
    }
}

} // verus!
