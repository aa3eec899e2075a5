//! Rules of a two-player chess board: which moves a piece may make, how an
//! accepted move changes the board, and whose turn it is afterwards.
//!
//! Ranks and files are numbered 0 to 7. White starts on ranks 0 and 1 and
//! advances towards rank 7. The game ends when a king is captured; there is
//! no check, castling, en passant or promotion.

pub mod board;
pub mod game;
pub mod layout;
pub mod lobby;
pub mod movement;
pub mod occupancy;
pub mod path;
pub mod pieces;
pub mod selection;
pub mod text;
