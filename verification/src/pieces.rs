//! Pieces, squares, and the layout a game starts from.

use vstd::prelude::*;

verus! {

/// The side a piece belongs to.
#[derive(Clone, Copy, Debug, PartialEq, Eq, Structural)]
pub enum PieceColor {
    White,
    Black,
}

/// The kind of a piece, which decides how it moves.
#[derive(Clone, Copy, Debug, PartialEq, Eq, Structural)]
pub enum PieceType {
    King,
    Queen,
    Bishop,
    Knight,
    Rook,
    Pawn,
}

/// A piece on the board. `x` is its rank and `y` its file.
#[derive(Clone, Copy, Debug, PartialEq, Eq, Structural)]
pub struct Piece {
    pub color: PieceColor,
    pub piece_type: PieceType,
    pub x: u8,
    pub y: u8,
}

/// A square of the board. `x` is its rank and `y` its file.
#[derive(Clone, Copy, Debug, PartialEq, Eq, Structural)]
pub struct Square {
    pub x: u8,
    pub y: u8,
}

/// Number of ranks, and of files, on the board.
pub const BOARD_SIZE: u8 = 8;

/// Whether rank `x` and file `y` name a square of the board.
pub open spec fn on_board(x: u8, y: u8) -> bool {
    x < BOARD_SIZE && y < BOARD_SIZE
}

impl PieceColor {
    /// The other side.
    pub open spec fn spec_opposite(self) -> PieceColor {
        match self {
            PieceColor::White => PieceColor::Black,
            PieceColor::Black => PieceColor::White,
        }
    }

    /// The other side.
    #[verifier::when_used_as_spec(spec_opposite)]
    pub fn opposite(self) -> (other: PieceColor)
        ensures
            other == self.spec_opposite(),
    {
        match self {
            PieceColor::White => PieceColor::Black,
            PieceColor::Black => PieceColor::White,
        }
    }

    /// The rank change of a one-step pawn advance: up for White, down for
    /// Black.
    pub open spec fn forward(self) -> int {
        match self {
            PieceColor::White => 1,
            PieceColor::Black => -1,
        }
    }

    /// The rank on which this side's pawns start.
    pub open spec fn pawn_rank(self) -> int {
        match self {
            PieceColor::White => 1,
            PieceColor::Black => 6,
        }
    }

    /// The rank on which this side's other pieces start.
    pub open spec fn back_rank(self) -> int {
        match self {
            PieceColor::White => 0,
            PieceColor::Black => 7,
        }
    }

    /// The side's name in English.
    pub open spec fn spec_name(self) -> Seq<char> {
        match self {
            PieceColor::White => "White"@,
            PieceColor::Black => "Black"@,
        }
    }

    /// The side's name in English.
    pub fn name(self) -> (text: &'static str)
        ensures
            text@ == self.spec_name(),
    {
        match self {
            PieceColor::White => "White",
            PieceColor::Black => "Black",
        }
    }
}

impl Square {
    /// Whether the square lies on the board.
    pub open spec fn spec_is_valid(self) -> bool {
        on_board(self.x, self.y)
    }

    /// Whether the square lies on the board.
    #[verifier::when_used_as_spec(spec_is_valid)]
    pub fn is_valid(self) -> (valid: bool)
        ensures
            valid == self.spec_is_valid(),
    {
        self.x < BOARD_SIZE && self.y < BOARD_SIZE
    }

    /// Whether the square is drawn in the light colour: squares alternate,
    /// and the one at rank 0, file 0 is dark.
    pub fn is_light(self) -> (light: bool)
        ensures
            light == ((self.x + self.y + 1) % 2 == 0),
    {
        (self.x % 2) != (self.y % 2)
    }
}

impl Piece {
    /// Whether the piece stands on the square at rank `pos.0`, file `pos.1`.
    pub open spec fn spec_is_at(&self, pos: (u8, u8)) -> bool {
        self.x == pos.0 && self.y == pos.1
    }

    /// Whether the piece stands on the square at rank `pos.0`, file `pos.1`.
    #[verifier::when_used_as_spec(spec_is_at)]
    pub fn is_at(&self, pos: (u8, u8)) -> (there: bool)
        ensures
            there == self.spec_is_at(pos),
    {
        self.x == pos.0 && self.y == pos.1
    }

    /// Whether the piece stands on a square of the board.
    pub open spec fn spec_in_bounds(&self) -> bool {
        on_board(self.x, self.y)
    }

    /// Whether the piece stands on a square of the board.
    #[verifier::when_used_as_spec(spec_in_bounds)]
    pub fn in_bounds(&self) -> (inside: bool)
        ensures
            inside == self.spec_in_bounds(),
    {
        self.x < BOARD_SIZE && self.y < BOARD_SIZE
    }
}

} // verus!
