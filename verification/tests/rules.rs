use fluffy_chess::movement::{
    is_diagonal_line, is_king_step, is_knight_jump, is_pawn_move, is_straight_line,
};
use fluffy_chess::occupancy::{color_of_square, index_at, piece_at};
use fluffy_chess::path::{coordinate_distance, is_path_empty};
use fluffy_chess::pieces::{Piece, PieceColor, PieceType, Square};

fn piece(color: PieceColor, piece_type: PieceType, x: u8, y: u8) -> Piece {
    Piece { color, piece_type, x, y }
}

fn white(piece_type: PieceType, x: u8, y: u8) -> Piece {
    piece(PieceColor::White, piece_type, x, y)
}

fn black(piece_type: PieceType, x: u8, y: u8) -> Piece {
    piece(PieceColor::Black, piece_type, x, y)
}

#[test]
fn color_of_square_finds_the_piece_on_it() {
    let pieces = vec![white(PieceType::Rook, 0, 0), black(PieceType::Pawn, 6, 3)];
    assert_eq!(color_of_square((0, 0), &pieces), Some(PieceColor::White));
    assert_eq!(color_of_square((6, 3), &pieces), Some(PieceColor::Black));
    assert_eq!(color_of_square((3, 6), &pieces), None);
    assert_eq!(color_of_square((0, 0), &Vec::new()), None);
}

#[test]
fn piece_at_answers_with_the_first_piece_on_the_square() {
    let pieces = vec![
        white(PieceType::Rook, 0, 0),
        black(PieceType::Pawn, 4, 4),
        white(PieceType::Queen, 4, 4),
    ];
    assert_eq!(piece_at((4, 4), &pieces), Some(black(PieceType::Pawn, 4, 4)));
    assert_eq!(index_at((4, 4), &pieces), Some(1));
    assert_eq!(index_at((4, 5), &pieces), None);
    assert_eq!(piece_at((5, 4), &pieces), None);
}

#[test]
fn coordinate_distance_is_symmetric() {
    assert_eq!(coordinate_distance(2, 7), 5);
    assert_eq!(coordinate_distance(7, 2), 5);
    assert_eq!(coordinate_distance(3, 3), 0);
    assert_eq!(coordinate_distance(0, 255), 255);
}

#[test]
fn path_along_a_rank_is_blocked_by_a_piece_between() {
    let pieces = vec![white(PieceType::Rook, 0, 0), black(PieceType::Pawn, 0, 2)];
    assert!(!is_path_empty((0, 0), (0, 4), &pieces));
    assert!(!is_path_empty((0, 4), (0, 0), &pieces));
    assert!(is_path_empty((0, 0), (0, 2), &pieces));
    assert!(is_path_empty((0, 0), (0, 1), &pieces));
    assert!(is_path_empty((0, 2), (0, 7), &pieces));
}

#[test]
fn path_along_a_file_is_blocked_by_a_piece_between() {
    let pieces = vec![white(PieceType::Rook, 0, 3), white(PieceType::Pawn, 4, 3)];
    assert!(!is_path_empty((0, 3), (7, 3), &pieces));
    assert!(!is_path_empty((7, 3), (0, 3), &pieces));
    assert!(is_path_empty((0, 3), (4, 3), &pieces));
    assert!(is_path_empty((4, 3), (7, 3), &pieces));
    assert!(is_path_empty((0, 2), (7, 2), &pieces));
}

#[test]
fn path_along_each_diagonal_is_blocked_by_a_piece_between() {
    let pieces = vec![black(PieceType::Pawn, 3, 3)];
    assert!(!is_path_empty((1, 1), (5, 5), &pieces));
    assert!(!is_path_empty((5, 5), (1, 1), &pieces));
    assert!(!is_path_empty((1, 5), (5, 1), &pieces));
    assert!(!is_path_empty((5, 1), (1, 5), &pieces));
    assert!(is_path_empty((1, 1), (3, 3), &pieces));
    assert!(is_path_empty((3, 3), (6, 6), &pieces));
    assert!(is_path_empty((0, 1), (6, 7), &pieces));
    assert!(is_path_empty((2, 3), (4, 5), &pieces));
}

#[test]
fn path_ignores_its_end_squares() {
    let pieces = vec![white(PieceType::Bishop, 2, 2), black(PieceType::Knight, 5, 5)];
    assert!(is_path_empty((2, 2), (5, 5), &pieces));
    assert!(is_path_empty((5, 5), (2, 2), &pieces));
}

#[test]
fn path_of_no_length_is_empty() {
    let pieces = vec![white(PieceType::Queen, 3, 3)];
    assert!(is_path_empty((3, 3), (3, 3), &pieces));
}

#[test]
fn path_between_squares_on_no_common_line_is_empty() {
    let pieces = vec![black(PieceType::Pawn, 1, 1), black(PieceType::Pawn, 1, 2)];
    assert!(is_path_empty((0, 1), (2, 2), &pieces));
    assert!(is_path_empty((0, 0), (3, 7), &pieces));
}

#[test]
fn king_steps_one_square_in_any_direction() {
    for dx in -1i16..=1 {
        for dy in -1i16..=1 {
            assert_eq!(is_king_step(dx, dy), dx != 0 || dy != 0);
        }
    }
    assert!(!is_king_step(2, 0));
    assert!(!is_king_step(0, -2));
    assert!(!is_king_step(2, 2));
    assert!(!is_king_step(1, 2));
}

#[test]
fn knight_jumps_two_and_one() {
    let jumps = [(2, 1), (2, -1), (-2, 1), (-2, -1), (1, 2), (1, -2), (-1, 2), (-1, -2)];
    for dx in -3i16..=3 {
        for dy in -3i16..=3 {
            assert_eq!(is_knight_jump(dx, dy), jumps.contains(&(dx, dy)));
        }
    }
}

#[test]
fn straight_and_diagonal_lines() {
    assert!(is_straight_line(0, 5));
    assert!(is_straight_line(-3, 0));
    assert!(!is_straight_line(0, 0));
    assert!(!is_straight_line(1, 1));
    assert!(is_diagonal_line(3, 3));
    assert!(is_diagonal_line(3, -3));
    assert!(is_diagonal_line(-7, 7));
    assert!(is_diagonal_line(0, 0));
    assert!(!is_diagonal_line(2, 3));
    assert!(!is_diagonal_line(0, 1));
    assert!(!is_diagonal_line(i16::MIN, i16::MIN + 1));
    assert!(is_diagonal_line(i16::MIN, i16::MIN));
}

#[test]
fn pawn_moves_by_colour() {
    let w = PieceColor::White;
    let b = PieceColor::Black;
    assert!(is_pawn_move(w, 1, 1, 0, None, true));
    assert!(is_pawn_move(w, 4, 1, 0, None, false));
    assert!(!is_pawn_move(w, 1, 1, 0, Some(b), true));
    assert!(!is_pawn_move(w, 1, -1, 0, None, true));
    assert!(is_pawn_move(w, 1, 2, 0, None, true));
    assert!(!is_pawn_move(w, 1, 2, 0, None, false));
    assert!(!is_pawn_move(w, 2, 2, 0, None, true));
    assert!(!is_pawn_move(w, 1, 2, 0, Some(b), true));
    assert!(!is_pawn_move(w, 1, 3, 0, None, true));
    assert!(is_pawn_move(w, 3, 1, 1, Some(b), true));
    assert!(is_pawn_move(w, 3, 1, -1, Some(b), true));
    assert!(!is_pawn_move(w, 3, 1, 1, None, true));
    assert!(!is_pawn_move(w, 3, 1, 1, Some(w), true));
    assert!(!is_pawn_move(w, 3, 1, 2, Some(b), true));
    assert!(is_pawn_move(b, 6, -1, 0, None, true));
    assert!(is_pawn_move(b, 6, -2, 0, None, true));
    assert!(!is_pawn_move(b, 5, -2, 0, None, true));
    assert!(!is_pawn_move(b, 6, 1, 0, None, true));
    assert!(is_pawn_move(b, 4, -1, 1, Some(w), true));
    assert!(!is_pawn_move(b, 4, -1, 1, Some(b), true));
    assert!(!is_pawn_move(b, 4, 1, 1, Some(w), true));
}

#[test]
fn no_piece_moves_onto_its_own_colour() {
    let pieces = vec![
        white(PieceType::Rook, 0, 0),
        white(PieceType::Pawn, 0, 3),
        white(PieceType::King, 1, 1),
    ];
    assert!(!pieces[0].is_move_valid((0, 3), pieces.clone()));
    assert!(!pieces[2].is_move_valid((0, 0), pieces.clone()));
    assert!(!pieces[0].is_move_valid((0, 0), pieces.clone()));
}

#[test]
fn king_moves() {
    let king = white(PieceType::King, 3, 3);
    let pieces = vec![king, black(PieceType::Pawn, 4, 4)];
    assert!(king.is_move_valid((4, 3), pieces.clone()));
    assert!(king.is_move_valid((3, 2), pieces.clone()));
    assert!(king.is_move_valid((2, 2), pieces.clone()));
    assert!(king.is_move_valid((4, 4), pieces.clone()));
    assert!(!king.is_move_valid((5, 3), pieces.clone()));
    assert!(!king.is_move_valid((5, 5), pieces.clone()));
    assert!(!king.is_move_valid((3, 3), pieces.clone()));
}

#[test]
fn queen_moves() {
    let queen = white(PieceType::Queen, 3, 3);
    let pieces = vec![queen, black(PieceType::Pawn, 3, 5), white(PieceType::Pawn, 5, 5)];
    assert!(queen.is_move_valid((3, 4), pieces.clone()));
    assert!(queen.is_move_valid((3, 5), pieces.clone()));
    assert!(!queen.is_move_valid((3, 6), pieces.clone()));
    assert!(queen.is_move_valid((7, 3), pieces.clone()));
    assert!(queen.is_move_valid((0, 0), pieces.clone()));
    assert!(queen.is_move_valid((4, 4), pieces.clone()));
    assert!(!queen.is_move_valid((5, 5), pieces.clone()));
    assert!(!queen.is_move_valid((6, 6), pieces.clone()));
    assert!(!queen.is_move_valid((5, 4), pieces.clone()));
}

#[test]
fn bishop_moves() {
    let bishop = black(PieceType::Bishop, 4, 4);
    let pieces = vec![bishop, white(PieceType::Pawn, 2, 2)];
    assert!(bishop.is_move_valid((5, 5), pieces.clone()));
    assert!(bishop.is_move_valid((7, 1), pieces.clone()));
    assert!(bishop.is_move_valid((2, 2), pieces.clone()));
    assert!(!bishop.is_move_valid((1, 1), pieces.clone()));
    assert!(!bishop.is_move_valid((4, 6), pieces.clone()));
    assert!(!bishop.is_move_valid((5, 6), pieces.clone()));
}

#[test]
fn rook_moves() {
    let rook = white(PieceType::Rook, 0, 0);
    let pieces = vec![rook, black(PieceType::Pawn, 0, 2)];
    assert!(rook.is_move_valid((0, 1), pieces.clone()));
    assert!(rook.is_move_valid((0, 2), pieces.clone()));
    assert!(rook.is_move_valid((7, 0), pieces.clone()));
    assert!(!rook.is_move_valid((1, 1), pieces.clone()));
    assert!(!rook.is_move_valid((0, 0), pieces.clone()));
}

#[test]
fn rook_is_stopped_by_a_piece_in_its_way() {
    let rook = white(PieceType::Rook, 0, 0);
    let pieces = vec![rook, black(PieceType::Pawn, 0, 2)];
    assert!(!rook.is_move_valid((0, 4), pieces));
}

#[test]
fn knight_jumps_over_pieces() {
    let knight = white(PieceType::Knight, 0, 1);
    let pieces = vec![
        knight,
        white(PieceType::Pawn, 1, 1),
        white(PieceType::Pawn, 1, 2),
        black(PieceType::Pawn, 2, 1),
        white(PieceType::Pawn, 1, 0),
    ];
    assert!(knight.is_move_valid((2, 2), pieces.clone()));
    assert!(knight.is_move_valid((2, 0), pieces.clone()));
    assert!(knight.is_move_valid((1, 3), pieces.clone()));
    assert!(!knight.is_move_valid((2, 1), pieces.clone()));
    assert!(!knight.is_move_valid((1, 2), pieces.clone()));
    assert!(knight.is_move_valid((2, 2), vec![knight]));
}

#[test]
fn pawn_moves_on_a_board() {
    let pawn = white(PieceType::Pawn, 1, 4);
    let alone = vec![pawn];
    assert!(pawn.is_move_valid((2, 4), alone.clone()));
    assert!(pawn.is_move_valid((3, 4), alone.clone()));
    assert!(!pawn.is_move_valid((4, 4), alone.clone()));
    assert!(!pawn.is_move_valid((0, 4), alone.clone()));
    assert!(!pawn.is_move_valid((2, 5), alone.clone()));
    assert!(!pawn.is_move_valid((1, 5), alone.clone()));

    let blocked = vec![pawn, black(PieceType::Pawn, 2, 4)];
    assert!(!pawn.is_move_valid((2, 4), blocked.clone()));
    assert!(!pawn.is_move_valid((3, 4), blocked.clone()));

    let target = vec![pawn, black(PieceType::Pawn, 2, 5), white(PieceType::Pawn, 2, 3)];
    assert!(pawn.is_move_valid((2, 5), target.clone()));
    assert!(!pawn.is_move_valid((2, 3), target.clone()));

    let dark = black(PieceType::Pawn, 6, 0);
    let facing = vec![dark, white(PieceType::Knight, 5, 1), white(PieceType::Pawn, 4, 0)];
    assert!(dark.is_move_valid((5, 0), facing.clone()));
    assert!(!dark.is_move_valid((4, 0), facing.clone()));
    assert!(dark.is_move_valid((5, 1), facing.clone()));
    assert!(!dark.is_move_valid((7, 0), facing.clone()));
    let moved = black(PieceType::Pawn, 5, 0);
    assert!(!moved.is_move_valid((3, 0), vec![moved]));
}

#[test]
fn is_move_valid_gives_the_same_answer_each_time() {
    let pieces = vec![
        white(PieceType::Queen, 0, 3),
        white(PieceType::Pawn, 1, 3),
        black(PieceType::Pawn, 3, 0),
    ];
    for x in 0..8u8 {
        for y in 0..8u8 {
            let first = pieces[0].is_move_valid((x, y), pieces.clone());
            let second = pieces[0].is_move_valid((x, y), pieces.clone());
            assert_eq!(first, second);
        }
    }
}

#[test]
fn squares_and_pieces_know_the_board() {
    assert!(Square { x: 0, y: 0 }.is_valid());
    assert!(Square { x: 7, y: 7 }.is_valid());
    assert!(!Square { x: 8, y: 0 }.is_valid());
    assert!(!Square { x: 0, y: 8 }.is_valid());
    assert!(white(PieceType::Pawn, 7, 0).in_bounds());
    assert!(!white(PieceType::Pawn, 7, 8).in_bounds());
    assert!(white(PieceType::Pawn, 2, 5).is_at((2, 5)));
    assert!(!white(PieceType::Pawn, 2, 5).is_at((5, 2)));
    assert!(!Square { x: 0, y: 0 }.is_light());
    assert!(Square { x: 0, y: 1 }.is_light());
    assert!(Square { x: 1, y: 0 }.is_light());
    assert!(!Square { x: 7, y: 7 }.is_light());
    assert!(Square { x: 255, y: 0 }.is_light());
    assert_eq!(PieceColor::White.opposite(), PieceColor::Black);
    assert_eq!(PieceColor::Black.opposite(), PieceColor::White);
    assert_eq!(PieceColor::White.name(), "White");
    assert_eq!(PieceColor::Black.name(), "Black");
}
