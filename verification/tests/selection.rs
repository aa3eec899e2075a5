use fluffy_chess::board::Board;
use fluffy_chess::game::{AttemptMove, PlayerTurn};
use fluffy_chess::pieces::{PieceColor, Square};
use fluffy_chess::selection::{pick, select, select_piece, SelectedPiece, SelectedSquare};

#[test]
fn nothing_is_selected_at_first() {
    assert_eq!(SelectedSquare::default().entity, None);
    assert_eq!(SelectedPiece::default().entity, None);
}

#[test]
fn pick_takes_only_a_piece_of_the_colour_asked_for() {
    let board = Board::standard();
    assert_eq!(pick(Square { x: 0, y: 4 }, PieceColor::White, &board), Some(4));
    assert_eq!(pick(Square { x: 0, y: 4 }, PieceColor::Black, &board), None);
    assert_eq!(pick(Square { x: 6, y: 7 }, PieceColor::Black, &board), Some(31));
    assert_eq!(pick(Square { x: 3, y: 3 }, PieceColor::White, &board), None);
}

#[test]
fn first_square_picks_the_piece_and_second_sends_it() {
    let board = Board::standard();
    let turn = PlayerTurn::default();
    let mut square = SelectedSquare::default();
    let mut piece = SelectedPiece::default();

    let first = select(&mut square, &mut piece, &turn, &board, 500, Some(Square { x: 1, y: 4 }));
    assert_eq!(first, None);
    assert_eq!(square.entity, Some(500));
    assert_eq!(piece.entity, Some(12));

    let second = select(&mut square, &mut piece, &turn, &board, 501, Some(Square { x: 3, y: 4 }));
    assert_eq!(second, Some(AttemptMove { piece: 12, square: Square { x: 3, y: 4 } }));
    assert_eq!(square.entity, None);
    assert_eq!(piece.entity, None);
}

#[test]
fn pointing_at_the_other_colour_or_nothing_picks_no_piece() {
    let board = Board::standard();
    let turn = PlayerTurn::default();
    let mut square = SelectedSquare::default();
    let mut piece = SelectedPiece::default();

    let far = Some(Square { x: 6, y: 0 });
    assert_eq!(select(&mut square, &mut piece, &turn, &board, 7, far), None);
    assert_eq!(square.entity, Some(7));
    assert_eq!(piece.entity, None);

    let empty = Some(Square { x: 4, y: 0 });
    assert_eq!(select(&mut square, &mut piece, &turn, &board, 8, empty), None);
    assert_eq!(square.entity, Some(8));
    assert_eq!(piece.entity, None);

    let black = PlayerTurn { color: PieceColor::Black, winner: None };
    assert_eq!(select(&mut square, &mut piece, &black, &board, 7, far), None);
    assert_eq!(piece.entity, Some(24));
}

#[test]
fn pointing_at_what_is_no_square_only_remembers_it() {
    let board = Board::standard();
    let turn = PlayerTurn::default();
    let mut square = SelectedSquare { entity: Some(3) };
    let mut piece = SelectedPiece { entity: Some(12) };
    assert_eq!(select(&mut square, &mut piece, &turn, &board, 900, None), None);
    assert_eq!(square.entity, Some(900));
    assert_eq!(piece.entity, Some(12));
}

#[test]
fn pointing_at_a_piece_picks_it_if_it_is_to_move() {
    let board = Board::standard();
    let turn = PlayerTurn::default();
    let mut square = SelectedSquare { entity: Some(40) };
    let mut piece = SelectedPiece::default();

    assert_eq!(select_piece(&mut square, &mut piece, &turn, &board, 28), None);
    assert_eq!(piece.entity, None);
    assert_eq!(square.entity, Some(40));

    assert_eq!(select_piece(&mut square, &mut piece, &turn, &board, 99), None);
    assert_eq!(piece.entity, None);

    assert_eq!(select_piece(&mut square, &mut piece, &turn, &board, 1), None);
    assert_eq!(piece.entity, Some(1));
    assert_eq!(square.entity, Some(40));
}

#[test]
fn pointing_at_a_second_piece_sends_the_first_to_its_square() {
    let board = Board::standard();
    let turn = PlayerTurn::default();
    let mut square = SelectedSquare { entity: Some(40) };
    let mut piece = SelectedPiece { entity: Some(3) };

    assert_eq!(select_piece(&mut square, &mut piece, &turn, &board, 99), None);
    assert_eq!(piece.entity, Some(3));
    assert_eq!(square.entity, Some(40));

    assert_eq!(
        select_piece(&mut square, &mut piece, &turn, &board, 27),
        Some(AttemptMove { piece: 3, square: Square { x: 6, y: 3 } })
    );
    assert_eq!(piece.entity, None);
    assert_eq!(square.entity, None);
}
