use chessboard::chessboard::{Button, ChessBoard, Event, GestureState, Status, FAR_AWAY};
use chessboard::mapper::Point;
use chessboard::mouse_handler::MouseHandler;
use chessboard::position::{Piece, Player, Position};
use chessboard::square::Square;

const START: &str = "rnbqkbnr/pppppppp/8/8/8/8/PPPPPPPP/RNBQKBNR w KQkq - 0 1";

fn move_to(board: &mut ChessBoard, x: i32, y: i32) -> (Status, Option<String>) {
    board.on_event(Event::CursorMoved { position: Point::from_pixels(x, y) })
}

fn press(board: &mut ChessBoard) -> (Status, Option<String>) {
    board.on_event(Event::ButtonPressed(Button::Left))
}

fn release(board: &mut ChessBoard) -> (Status, Option<String>) {
    board.on_event(Event::ButtonReleased(Button::Left))
}

#[test]
fn a_new_board_is_idle_with_the_pointer_far_away() {
    let board = ChessBoard::new(400);
    assert_eq!(board.size, 400);
    assert_eq!(board.gesture, GestureState::Idle);
    assert!(!board.reversed);
    assert_eq!((board.mouse_x, board.mouse_y), (FAR_AWAY, FAR_AWAY));
    assert_eq!(board.logic.to_fen(), START);
    assert_eq!(board.width(), 400);
    assert_eq!(board.height(), 400);
    assert_eq!(board.layout(), (400, 400));
}

#[test]
fn a_press_before_the_pointer_was_seen_starts_nothing() {
    let mut board = ChessBoard::new(400);
    assert_eq!(press(&mut board), (Status::Captured, None));
    assert_eq!(board.gesture, GestureState::Idle);
}

#[test]
fn pawn_advance_from_e2_to_e4_is_played_and_announced() {
    let mut board = ChessBoard::new(400);
    assert_eq!(move_to(&mut board, 225, 325), (Status::Captured, None));
    assert_eq!(board.gesture, GestureState::Idle);
    assert_eq!(press(&mut board), (Status::Captured, None));
    assert_eq!(
        board.gesture,
        GestureState::Dragging {
            start_square: Square { file: 4, rank: 1 },
            piece: Piece::WhitePawn,
            current_pixel: Point::from_pixels(225, 325),
        }
    );
    assert_eq!(move_to(&mut board, 225, 280), (Status::Captured, None));
    assert_eq!(move_to(&mut board, 225, 225), (Status::Captured, None));
    assert_eq!(
        board.gesture,
        GestureState::Dragging {
            start_square: Square { file: 4, rank: 1 },
            piece: Piece::WhitePawn,
            current_pixel: Point::from_pixels(225, 225),
        }
    );
    // Nothing is played before the release.
    assert_eq!(board.logic.to_fen(), START);
    let (status, announced) = release(&mut board);
    assert_eq!(status, Status::Captured);
    let announced = announced.unwrap();
    assert_eq!(announced, board.logic.to_fen());
    let fields: Vec<&str> = announced.split(' ').collect();
    assert_eq!(fields[0], "rnbqkbnr/pppppppp/8/8/4P3/8/PPPP1PPP/RNBQKBNR");
    assert_eq!(fields[1], "b");
    assert_eq!(board.logic.turn(), Player::Black);
    assert_eq!(board.gesture, GestureState::Idle);
}

#[test]
fn pawn_move_from_e2_to_g4_changes_nothing() {
    let mut board = ChessBoard::new(400);
    move_to(&mut board, 225, 325);
    press(&mut board);
    move_to(&mut board, 325, 225);
    assert_eq!(release(&mut board), (Status::Captured, None));
    assert_eq!(board.logic.to_fen(), START);
    assert_eq!(board.logic.turn(), Player::White);
    assert_eq!(board.gesture, GestureState::Idle);
}

#[test]
fn a_release_off_the_board_cancels_the_gesture() {
    let mut board = ChessBoard::new(400);
    move_to(&mut board, 225, 325);
    press(&mut board);
    move_to(&mut board, 600, -30);
    assert!(matches!(board.gesture, GestureState::Dragging { .. }));
    assert_eq!(release(&mut board), (Status::Captured, None));
    assert_eq!(board.logic.to_fen(), START);
    assert_eq!(board.gesture, GestureState::Idle);
}

#[test]
fn a_release_on_the_start_square_changes_nothing() {
    let mut board = ChessBoard::new(400);
    move_to(&mut board, 225, 325);
    press(&mut board);
    assert_eq!(release(&mut board), (Status::Captured, None));
    assert_eq!(board.logic.to_fen(), START);
    assert_eq!(board.gesture, GestureState::Idle);
}

#[test]
fn a_press_on_an_empty_square_starts_nothing() {
    let mut board = ChessBoard::new(400);
    move_to(&mut board, 225, 225);
    assert_eq!(press(&mut board), (Status::Captured, None));
    assert_eq!(board.gesture, GestureState::Idle);
    assert_eq!(release(&mut board), (Status::Captured, None));
    assert_eq!(board.logic.to_fen(), START);
}

#[test]
fn a_press_off_the_board_starts_nothing() {
    let mut board = ChessBoard::new(400);
    move_to(&mut board, 10, 10);
    press(&mut board);
    assert_eq!(board.gesture, GestureState::Idle);
    move_to(&mut board, 430, 200);
    press(&mut board);
    assert_eq!(board.gesture, GestureState::Idle);
}

#[test]
fn a_second_press_while_dragging_is_ignored() {
    let mut board = ChessBoard::new(400);
    move_to(&mut board, 225, 325);
    press(&mut board);
    move_to(&mut board, 75, 325);
    let before = board.gesture;
    press(&mut board);
    assert_eq!(board.gesture, before);
    assert_eq!(
        before,
        GestureState::Dragging {
            start_square: Square { file: 4, rank: 1 },
            piece: Piece::WhitePawn,
            current_pixel: Point::from_pixels(75, 325),
        }
    );
}

#[test]
fn moves_and_releases_on_an_idle_board_do_nothing() {
    let mut board = ChessBoard::new(400);
    assert_eq!(release(&mut board), (Status::Captured, None));
    assert_eq!(board.gesture, GestureState::Idle);
    move_to(&mut board, 225, 325);
    assert_eq!(board.gesture, GestureState::Idle);
    assert_eq!((board.mouse_x, board.mouse_y), (225 * 160, 325 * 160));
    assert_eq!(board.logic.to_fen(), START);
}

#[test]
fn other_buttons_and_other_events_are_ignored() {
    let mut board = ChessBoard::new(400);
    move_to(&mut board, 225, 325);
    assert_eq!(board.on_event(Event::ButtonPressed(Button::Right)), (Status::Ignored, None));
    assert_eq!(board.on_event(Event::ButtonPressed(Button::Middle)), (Status::Ignored, None));
    assert_eq!(board.on_event(Event::ButtonPressed(Button::Other)), (Status::Ignored, None));
    assert_eq!(board.gesture, GestureState::Idle);
    press(&mut board);
    let before = board.gesture;
    assert_eq!(board.on_event(Event::ButtonReleased(Button::Right)), (Status::Ignored, None));
    assert_eq!(board.on_event(Event::Unrelated), (Status::Ignored, None));
    assert_eq!(board.gesture, before);
    assert_eq!(board.logic.to_fen(), START);
}

#[test]
fn every_gesture_ends_idle() {
    let spots: [(i32, i32); 6] =
        [(225, 325), (225, 225), (325, 225), (-50, 700), (75, 75), (424, 424)];
    for pressed in spots {
        for passed in spots {
            for released in spots {
                let mut board = ChessBoard::new(400);
                move_to(&mut board, pressed.0, pressed.1);
                press(&mut board);
                move_to(&mut board, passed.0, passed.1);
                move_to(&mut board, released.0, released.1);
                release(&mut board);
                assert_eq!(board.gesture, GestureState::Idle);
            }
        }
    }
}

#[test]
fn reversed_board_picks_up_the_pawn_shown_in_the_second_row() {
    let mut board = ChessBoard::new(400);
    board.toggle_orientation();
    assert!(board.reversed);
    // Row 1 from the top shows rank 2; the fourth column from the left
    // shows the e-file.
    move_to(&mut board, 200, 100);
    press(&mut board);
    assert_eq!(
        board.gesture,
        GestureState::Dragging {
            start_square: Square { file: 4, rank: 1 },
            piece: Piece::WhitePawn,
            current_pixel: Point::from_pixels(200, 100),
        }
    );
    // Two rows further down stands e4.
    move_to(&mut board, 200, 200);
    let (_, announced) = release(&mut board);
    let announced = announced.unwrap();
    assert!(announced.starts_with("rnbqkbnr/pppppppp/8/8/4P3/8/PPPP1PPP/RNBQKBNR b "));
}

#[test]
fn a_toggle_during_a_drag_keeps_the_start_square() {
    let mut board = ChessBoard::new(400);
    move_to(&mut board, 225, 325);
    press(&mut board);
    let before = board.gesture;
    board.toggle_orientation();
    assert_eq!(board.gesture, before);
    // On the reversed board e4 is shown in column 3, row 3.
    move_to(&mut board, 200, 200);
    let (_, announced) = release(&mut board);
    assert!(announced.unwrap().starts_with("rnbqkbnr/pppppppp/8/8/4P3/8/PPPP1PPP/RNBQKBNR b "));
}

#[test]
fn black_answers_after_white_has_moved() {
    let mut board = ChessBoard::new(400);
    move_to(&mut board, 225, 325);
    press(&mut board);
    move_to(&mut board, 225, 225);
    release(&mut board);
    // e7 is shown in column 4, row 1: 225..275 px by 75..125 px.
    move_to(&mut board, 240, 90);
    press(&mut board);
    assert_eq!(
        board.gesture,
        GestureState::Dragging {
            start_square: Square { file: 4, rank: 6 },
            piece: Piece::BlackPawn,
            current_pixel: Point::from_pixels(240, 90),
        }
    );
    move_to(&mut board, 240, 190);
    let (_, announced) = release(&mut board);
    let announced = announced.unwrap();
    assert!(announced.starts_with("rnbqkbnr/pppp1ppp/8/4p3/4P3/8/PPPP1PPP/RNBQKBNR w "));
    assert_eq!(board.logic.turn(), Player::White);
}

#[test]
fn handlers_can_be_called_directly() {
    let mut board = ChessBoard::new(400);
    board.mouse_x = 225 * 160;
    board.mouse_y = 325 * 160;
    MouseHandler::handle_left_button_pressed(&mut board);
    assert!(matches!(board.gesture, GestureState::Dragging { .. }));
    board.mouse_y = 275 * 160;
    MouseHandler::handle_mouse_moved(&mut board);
    assert_eq!(
        board.gesture,
        GestureState::Dragging {
            start_square: Square { file: 4, rank: 1 },
            piece: Piece::WhitePawn,
            current_pixel: Point::from_pixels(225, 275),
        }
    );
    let announced = MouseHandler::handle_left_button_released(&mut board).unwrap();
    assert!(announced.starts_with("rnbqkbnr/pppppppp/8/8/8/4P3/PPPP1PPP/RNBQKBNR b "));
    assert_eq!(board.gesture, GestureState::Idle);
}

#[test]
fn set_game_and_set_orientation_keep_the_gesture() {
    let mut board = ChessBoard::new(400);
    move_to(&mut board, 225, 325);
    press(&mut board);
    let before = board.gesture;
    board.set_orientation(true);
    assert!(board.reversed);
    board.set_orientation(true);
    assert!(board.reversed);
    board.set_game(Position::from_fen("4k3/8/8/8/8/8/8/R3K3 w - - 0 1").ok().unwrap());
    assert_eq!(board.gesture, before);
    assert_eq!(board.logic.to_fen(), "4k3/8/8/8/8/8/8/R3K3 w - - 0 1");
}

#[test]
fn the_hovered_square_follows_the_dragged_piece() {
    let mut board = ChessBoard::new(400);
    assert_eq!(MouseHandler::hovered_square(&board), None);
    move_to(&mut board, 225, 325);
    assert_eq!(MouseHandler::hovered_square(&board), None);
    press(&mut board);
    assert_eq!(MouseHandler::hovered_square(&board), Some(Square { file: 4, rank: 1 }));
    move_to(&mut board, 325, 225);
    assert_eq!(MouseHandler::hovered_square(&board), Some(Square { file: 6, rank: 3 }));
    // Off the board the piece hovers over the border, but a release there
    // cancels the gesture all the same.
    move_to(&mut board, 600, 225);
    assert_eq!(MouseHandler::hovered_square(&board), Some(Square { file: 7, rank: 3 }));
    assert_eq!(release(&mut board), (Status::Captured, None));
    assert_eq!(board.logic.to_fen(), START);
    assert_eq!(MouseHandler::hovered_square(&board), None);
}
