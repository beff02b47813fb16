//! The gesture state machine: press, drag, release.
//!
//! A gesture starts with a press on an occupied square, follows the pointer
//! while it moves, and ends with the release, whatever comes of it. The
//! release hands the two squares to the move resolver; a legal move replaces
//! the board's position and is announced, anything else leaves no trace.

use vstd::prelude::*;
use crate::chessboard::{ChessBoard, GestureState};
use crate::engine::{EngineMove, fen_piece_at};
use crate::mapper::{
    Point, pixel_to_nearest_square, pixel_to_square, spec_nearest_square, spec_pixel_to_square,
};
use crate::position::{Piece, has_match, piece_of_code, spec_resolve};
use crate::square::Square;

verus! {

/// The three handlers of the gesture: press, move, release.
pub struct MouseHandler {}

/// The gesture after a press at `pointer`.
///
/// Only an idle board reacts: when the pointer is over a square that holds
/// a piece, that piece is picked up. A press off the board, on an empty
/// square, or while a piece is already in the air changes nothing.
pub open spec fn spec_press(
    gesture: GestureState,
    pointer: Point,
    size: u16,
    reversed: bool,
    fen: Seq<char>,
) -> GestureState {
    match gesture {
        GestureState::Dragging { .. } => gesture,
        GestureState::Idle => match spec_pixel_to_square(
            pointer.x as int,
            pointer.y as int,
            size as int,
            reversed,
        ) {
            None => GestureState::Idle,
            Some(square) => match piece_of_code(fen_piece_at(fen, square.index())) {
                None => GestureState::Idle,
                Some(piece) => GestureState::Dragging {
                    start_square: square,
                    piece,
                    current_pixel: pointer,
                },
            },
        },
    }
}

/// The gesture after the pointer has moved to `pointer`: a dragged piece
/// follows it, an idle board takes no notice.
pub open spec fn spec_move(gesture: GestureState, pointer: Point) -> GestureState {
    match gesture {
        GestureState::Idle => GestureState::Idle,
        GestureState::Dragging { start_square, piece, .. } => GestureState::Dragging {
            start_square,
            piece,
            current_pixel: pointer,
        },
    }
}

/// The gesture after a release: always idle.
pub open spec fn spec_release(gesture: GestureState) -> GestureState {
    GestureState::Idle
}

/// The gesture after the pointer has visited each of `path` in turn.
pub open spec fn spec_drag(gesture: GestureState, path: Seq<Point>) -> GestureState
    decreases path.len(),
{
    if path.len() == 0 {
        gesture
    } else {
        spec_move(spec_drag(gesture, path.drop_last()), path.last())
    }
}

/// What a release at `pointer` announces, and the record of the position it
/// leaves on the board, when the board's position has the record `fen` and
/// the engine lists the moves `listed` for it: the record of the new
/// position when the gesture resolves to a legal move, nothing otherwise.
pub open spec fn spec_outcome(
    gesture: GestureState,
    pointer: Point,
    size: u16,
    reversed: bool,
    fen: Seq<char>,
    listed: Seq<EngineMove>,
) -> Option<Seq<char>> {
    match gesture {
        GestureState::Idle => None,
        GestureState::Dragging { start_square, .. } => spec_resolve(
            fen,
            listed,
            start_square,
            spec_pixel_to_square(pointer.x as int, pointer.y as int, size as int, reversed),
        ),
    }
}

/// The square over which a dragged piece hovers: the square nearest to
/// where the gesture last saw the pointer. An idle board has none.
pub open spec fn spec_hovered(gesture: GestureState, size: u16, reversed: bool) -> Option<Square> {
    match gesture {
        GestureState::Idle => None,
        GestureState::Dragging { current_pixel, .. } => Some(
            spec_nearest_square(
                current_pixel.x as int,
                current_pixel.y as int,
                size as int,
                reversed,
            ),
        ),
    }
}

impl MouseHandler {
    /// The square over which the dragged piece hovers, for display: a
    /// pointer off the board counts for the nearest square of the border.
    /// Where the gesture ends is decided by the release alone, which takes
    /// no such liberty.
    pub fn hovered_square(board: &ChessBoard) -> (r: Option<Square>)
        requires
            board.wf(),
        ensures
            r == spec_hovered(board.gesture, board.size, board.reversed),
            r matches Some(s) ==> s.wf(),
    {
        match board.gesture {
            GestureState::Idle => None,
            GestureState::Dragging { start_square: _, piece: _, current_pixel } => Some(
                pixel_to_nearest_square(
                    current_pixel.x,
                    current_pixel.y,
                    board.size,
                    board.reversed,
                ),
            ),
        }
    }

    /// The left button went down where the pointer is.
    pub fn handle_left_button_pressed(board: &mut ChessBoard)
        requires
            old(board).wf(),
        ensures
            final(board).wf(),
            final(board).gesture == spec_press(
                old(board).gesture,
                old(board).pointer(),
                old(board).size,
                old(board).reversed,
                old(board).logic.fen(),
            ),
            *final(board) == (ChessBoard { gesture: final(board).gesture, ..*old(board) }),
    {
        if let GestureState::Idle = board.gesture {
            if let Some(square) = pixel_to_square(
                board.mouse_x,
                board.mouse_y,
                board.size,
                board.reversed,
            ) {
                if let Some(piece) = board.logic.piece_at(square) {
                    board.gesture = GestureState::Dragging {
                        start_square: square,
                        piece,
                        current_pixel: Point { x: board.mouse_x, y: board.mouse_y },
                    };
                }
            }
        }
    }

    /// The pointer has moved to where the board now records it.
    pub fn handle_mouse_moved(board: &mut ChessBoard)
        requires
            old(board).wf(),
        ensures
            final(board).wf(),
            final(board).gesture == spec_move(old(board).gesture, old(board).pointer()),
            *final(board) == (ChessBoard { gesture: final(board).gesture, ..*old(board) }),
    {
        if let GestureState::Dragging { start_square, piece, current_pixel: _ } = board.gesture {
            board.gesture = GestureState::Dragging {
                start_square,
                piece,
                current_pixel: Point { x: board.mouse_x, y: board.mouse_y },
            };
        }
    }

    /// The left button came up where the pointer is.
    ///
    /// The gesture ends here in any case. When a piece was in the air and
    /// the first legal move from its square to the square under the pointer
    /// exists, that move is played: the board's position is replaced and its
    /// FEN record is returned, to be announced. Otherwise the position is
    /// left untouched and nothing is returned.
    pub fn handle_left_button_released(board: &mut ChessBoard) -> (announced: Option<String>)
        requires
            old(board).wf(),
        ensures
            final(board).wf(),
            final(board).gesture == spec_release(old(board).gesture),
            *final(board) == (ChessBoard {
                gesture: final(board).gesture,
                logic: final(board).logic,
                ..*old(board)
            }),
            match spec_outcome(
                old(board).gesture,
                old(board).pointer(),
                old(board).size,
                old(board).reversed,
                old(board).logic.fen(),
                old(board).logic.moves(),
            ) {
                Some(fen) => final(board).logic.fen() == fen && announced is Some
                    && announced->0@ == fen,
                None => final(board).logic == old(board).logic && announced is None,
            },
    {
        let mut announced: Option<String> = None;
        if let GestureState::Dragging { start_square, piece: _, current_pixel: _ } = board.gesture {
            let end_square = pixel_to_square(
                board.mouse_x,
                board.mouse_y,
                board.size,
                board.reversed,
            );
            if let Some(position) = board.logic.resolve(start_square, end_square) {
                announced = Some(position.to_fen());
                board.logic = position;
            }
        }
        board.gesture = GestureState::Idle;
        announced
    }
}

/// Gesture completeness: a press, any number of moves and a release leave
/// the board idle, wherever the pointer was at each of them and whatever
/// the board was doing before.
pub proof fn lemma_gesture_completes(
    gesture: GestureState,
    size: u16,
    reversed: bool,
    fen: Seq<char>,
    pressed_at: Point,
    path: Seq<Point>,
)
    ensures
        spec_release(spec_drag(spec_press(gesture, pressed_at, size, reversed, fen), path))
            is Idle,
{
}

/// A drag never ends a gesture and never starts one: the board is dragging
/// after it exactly when it was before, with the same piece from the same
/// square.
pub proof fn lemma_drag_keeps_piece(gesture: GestureState, path: Seq<Point>)
    ensures
        spec_drag(gesture, path).lifted() == gesture.lifted(),
        gesture is Idle <==> spec_drag(gesture, path) is Idle,
        gesture matches GestureState::Dragging { piece, .. } ==> (spec_drag(gesture, path)
            matches GestureState::Dragging { piece: p, .. } && p == piece),
    decreases path.len(),
{
    if path.len() > 0 {
        lemma_drag_keeps_piece(gesture, path.drop_last());
    }
}

/// An illegal move is a no-op: when none of the moves that the engine
/// lists for the position leaves the dragged piece's square for the square
/// under the pointer, the release announces nothing, so the position stays
/// as it is.
pub proof fn lemma_illegal_move_is_noop(
    start_square: Square,
    piece: Piece,
    current_pixel: Point,
    pointer: Point,
    size: u16,
    reversed: bool,
    fen: Seq<char>,
    listed: Seq<EngineMove>,
)
    requires
        spec_pixel_to_square(pointer.x as int, pointer.y as int, size as int, reversed)
            matches Some(end) ==> !has_match(listed, start_square, end),
    ensures
        spec_outcome(
            GestureState::Dragging { start_square, piece, current_pixel },
            pointer,
            size,
            reversed,
            fen,
            listed,
        ) is None,
{
}

/// A release on the square where the piece was picked up plays no move.
pub proof fn lemma_release_on_start_is_noop(
    start_square: Square,
    piece: Piece,
    current_pixel: Point,
    pointer: Point,
    size: u16,
    reversed: bool,
    fen: Seq<char>,
    listed: Seq<EngineMove>,
)
    requires
        spec_pixel_to_square(pointer.x as int, pointer.y as int, size as int, reversed) == Some(
            start_square,
        ),
    ensures
        spec_outcome(
            GestureState::Dragging { start_square, piece, current_pixel },
            pointer,
            size,
            reversed,
            fen,
            listed,
        ) is None,
{
}

} // verus!
