//! The board component: position, orientation, pointer, gesture and the
//! cached static layer, owned in one place.

use vstd::prelude::*;
use crate::background::{ChessBoardBackground, Palette, StaticLayer, spec_static_layer};
use crate::drawing_helper::{DrawingHelper, resting_sprites, spec_dragged_sprite, spec_turn_disc};
use crate::fen::white_to_move;
use crate::mapper::Point;
use crate::mouse_handler::{MouseHandler, spec_move, spec_outcome, spec_press};
use crate::pieces_vectors::PiecesVectors;
use crate::position::{Piece, Player, Position};
use crate::primitives::{
    Color, Primitive, Quad, Sprite, fills, images, push_fills, push_images, push_texts, texts,
};
use crate::square::Square;

verus! {

/// Where a press-drag-release gesture stands.
#[derive(Clone, Copy, Debug, PartialEq, Eq, Structural)]
pub enum GestureState {
    /// No piece is being dragged.
    Idle,
    /// A piece was picked up on `start_square` and follows the pointer.
    /// `piece` is what stood there when it was picked up; it is not looked
    /// up again while the drag lasts.
    Dragging { start_square: Square, piece: Piece, current_pixel: Point },
}

impl GestureState {
    /// The square whose piece is in the air, if one is.
    pub open spec fn lifted(self) -> Option<Square> {
        match self {
            GestureState::Idle => None,
            GestureState::Dragging { start_square, .. } => Some(start_square),
        }
    }
}

/// A mouse button.
#[derive(Clone, Copy, Debug, PartialEq, Eq, Structural)]
pub enum Button {
    Left,
    Right,
    Middle,
    Other,
}

/// What the windowing layer reports to the board. Positions are relative
/// to the board's top-left corner.
#[derive(Clone, Copy, Debug, PartialEq, Eq, Structural)]
pub enum Event {
    ButtonPressed(Button),
    ButtonReleased(Button),
    CursorMoved { position: Point },
    /// Anything else: keys, wheel, touch, window events.
    Unrelated,
}

/// Whether the board made use of an event.
#[derive(Clone, Copy, Debug, PartialEq, Eq, Structural)]
pub enum Status {
    Ignored,
    Captured,
}

/// Everything the board shows at one drawing request, in drawing order:
/// the static layer (backdrop, cells, labels) at the bottom, then the turn
/// indicator, the resting pieces, and the dragged piece on top.
pub struct Frame<'a> {
    pub static_layer: &'a StaticLayer,
    pub turn: Quad,
    pub pieces: Vec<Sprite>,
    pub dragged: Option<Sprite>,
}

impl<'a> Frame<'a> {
    /// The steps that draw the frame, bottom layer first: the backdrop, the
    /// cells, the labels, the turn indicator, the resting pieces and, on top
    /// of everything, the dragged piece.
    pub open spec fn spec_steps(&self) -> Seq<Primitive> {
        seq![Primitive::Fill(self.static_layer.backdrop)] + fills(self.static_layer.cells@)
            + texts(self.static_layer.labels@) + seq![Primitive::Fill(self.turn)] + images(
            self.pieces@,
        ) + (match self.dragged {
            Some(sprite) => seq![Primitive::Image(sprite)],
            None => Seq::empty(),
        })
    }

    /// The steps that draw the frame, in drawing order.
    pub fn steps(&self) -> (steps: Vec<Primitive>)
        ensures
            steps@ == self.spec_steps(),
    {
        let mut steps: Vec<Primitive> = Vec::new();
        steps.push(Primitive::Fill(self.static_layer.backdrop));
        assert(steps@ == seq![Primitive::Fill(self.static_layer.backdrop)]);
        push_fills(&mut steps, &self.static_layer.cells);
        push_texts(&mut steps, &self.static_layer.labels);
        let ghost lower = steps@;
        steps.push(Primitive::Fill(self.turn));
        assert(steps@ == lower + seq![Primitive::Fill(self.turn)]);
        push_images(&mut steps, &self.pieces);
        let ghost resting = steps@;
        match self.dragged {
            Some(sprite) => {
                steps.push(Primitive::Image(sprite));
                assert(steps@ == resting + seq![Primitive::Image(sprite)]);
            },
            None => {
                assert(steps@ == resting + Seq::<Primitive>::empty());
            },
        }
        steps
    }
}

/// Whether the board makes use of an event: of the left button going down
/// or coming up and of the pointer moving, and of nothing else.
pub open spec fn spec_status(event: Event) -> Status {
    match event {
        Event::ButtonPressed(Button::Left) => Status::Captured,
        Event::ButtonReleased(Button::Left) => Status::Captured,
        Event::CursorMoved { .. } => Status::Captured,
        _ => Status::Ignored,
    }
}

/// A coordinate further away than any board reaches: where the pointer
/// is taken to be until it is first seen.
pub const FAR_AWAY: i64 = i64::MAX;

/// The interactive chessboard.
pub struct ChessBoard {
    pub size: u16,
    pub background_color: Color,
    pub white_cell_color: Color,
    pub black_cell_color: Color,
    pub dnd_start_cell_color: Color,
    pub dnd_end_cell_color: Color,
    pub dnd_cross_cells_color: Color,
    pub text_color: Color,
    pub pieces_images: PiecesVectors,
    pub logic: Position,
    pub reversed: bool,
    pub mouse_x: i64,
    pub mouse_y: i64,
    pub gesture: GestureState,
    pub background: ChessBoardBackground,
}

impl ChessBoard {
    /// The colours that the static layer is drawn in.
    pub open spec fn palette(&self) -> Palette {
        Palette {
            background: self.background_color,
            white_cell: self.white_cell_color,
            black_cell: self.black_cell_color,
            text: self.text_color,
        }
    }

    /// The board is sound: its size is positive, a dragged piece comes from
    /// a square of the board, and the cache of the static layer is kept for
    /// this board's size, orientation and colours.
    pub open spec fn wf(&self) -> bool {
        &&& self.size > 0
        &&& self.gesture matches GestureState::Dragging { start_square, .. } ==> start_square.wf()
        &&& self.background.wf()
        &&& self.background.spec_size() == self.size
        &&& self.background.spec_reversed() == self.reversed
        &&& self.background.spec_palette() == self.palette()
    }

    /// The pointer's position.
    pub open spec fn pointer(&self) -> Point {
        Point { x: self.mouse_x, y: self.mouse_y }
    }

    /// How a toggle of the orientation takes the board from `self` to
    /// `next`: the orientation is the other one, the static layer is
    /// invalidated, and everything else is as it was.
    pub open spec fn toggles_to(&self, next: &ChessBoard) -> bool {
        &&& *next == (ChessBoard {
            reversed: !self.reversed,
            background: next.background,
            ..*self
        })
        &&& self.background.changes_to(&next.background, self.size, !self.reversed)
    }

    /// Whether the board is as a board of `size` pixels is made, apart from
    /// the position on it: in the standard colours, with the standard
    /// images, turned as `reversed` says, no gesture under way, the pointer
    /// not yet seen, and nothing laid out.
    pub open spec fn is_initial(&self, size: u16, reversed: bool) -> bool {
        &&& self.wf()
        &&& self.size == size
        &&& self.background_color == Color::spec_rgb8(0x15, 0x88, 0xC4)
        &&& self.white_cell_color == Color::spec_rgb8(0xFF, 0xDE, 0xAD)
        &&& self.black_cell_color == Color::spec_rgb8(0xCD, 0x85, 0x3F)
        &&& self.dnd_start_cell_color == Color::spec_rgb8(0xDE, 0x18, 0x21)
        &&& self.dnd_end_cell_color == Color::spec_rgb8(0x62, 0xC7, 0x39)
        &&& self.dnd_cross_cells_color == Color::spec_rgb8(0x81, 0x44, 0xBD)
        &&& self.text_color == Color::spec_rgb8(0xFF, 0xFF, 0x00)
        &&& self.pieces_images.is_standard()
        &&& self.reversed == reversed
        &&& self.mouse_x == FAR_AWAY
        &&& self.mouse_y == FAR_AWAY
        &&& self.gesture is Idle
        &&& self.background.cached_layer() is None
        &&& self.background.spec_invalidations() == 0
    }

    /// A board of `size` pixels with the pieces set up for a new game and
    /// White to move, White at the bottom, no gesture under way and the
    /// pointer not yet seen.
    pub fn new(size: u16) -> (board: ChessBoard)
        requires
            size > 0,
        ensures
            board.is_initial(size, false),
            board.logic.fen() == "rnbqkbnr/pppppppp/8/8/8/8/PPPPPPPP/RNBQKBNR w KQkq - 0 1"@,
            board.logic.side_to_move() == Player::White,
    {
        ChessBoard::with_orientation(size, false)
    }

    /// A board like a new one, with Black at the bottom when `reversed`.
    pub fn with_orientation(size: u16, reversed: bool) -> (board: ChessBoard)
        requires
            size > 0,
        ensures
            board.is_initial(size, reversed),
            board.logic.fen() == "rnbqkbnr/pppppppp/8/8/8/8/PPPPPPPP/RNBQKBNR w KQkq - 0 1"@,
            board.logic.side_to_move() == Player::White,
    {
        let background_color = Color::from_rgb8(0x15, 0x88, 0xC4);
        let white_cell_color = Color::from_rgb8(0xFF, 0xDE, 0xAD);
        let black_cell_color = Color::from_rgb8(0xCD, 0x85, 0x3F);
        let text_color = Color::from_rgb8(0xFF, 0xFF, 0x00);
        let palette = Palette {
            background: background_color,
            white_cell: white_cell_color,
            black_cell: black_cell_color,
            text: text_color,
        };
        ChessBoard {
            size,
            background_color,
            white_cell_color,
            black_cell_color,
            dnd_start_cell_color: Color::from_rgb8(0xDE, 0x18, 0x21),
            dnd_end_cell_color: Color::from_rgb8(0x62, 0xC7, 0x39),
            dnd_cross_cells_color: Color::from_rgb8(0x81, 0x44, 0xBD),
            text_color,
            pieces_images: PiecesVectors::new(),
            logic: Position::start(),
            reversed,
            mouse_x: FAR_AWAY,
            mouse_y: FAR_AWAY,
            gesture: GestureState::Idle,
            background: ChessBoardBackground::with_palette(size, reversed, palette),
        }
    }

    /// Turns the board round. Only later conversions between pointer and
    /// squares are affected: position, size and a gesture under way, with
    /// its starting square and its piece, stay as they are. The static
    /// layer is invalidated, and counted as such; the next drawing request
    /// lays it out anew.
    pub fn toggle_orientation(&mut self)
        requires
            old(self).wf(),
        ensures
            final(self).wf(),
            old(self).toggles_to(final(self)),
            final(self).background.spec_invalidations() == old(
                self,
            ).background.spec_invalidations() + 1,
            !final(self).background.is_fresh(),
    {
        self.reversed = !self.reversed;
        self.background.set_orientation(self.reversed);
    }

    /// Sets which side is drawn at the bottom: Black when `reversed`.
    pub fn set_orientation(&mut self, reversed: bool)
        requires
            old(self).wf(),
        ensures
            final(self).wf(),
            *final(self) == (ChessBoard {
                reversed,
                background: final(self).background,
                ..*old(self)
            }),
            old(self).background.changes_to(&final(self).background, old(self).size, reversed),
    {
        self.reversed = reversed;
        self.background.set_orientation(reversed);
    }

    /// Puts another position on the board. Gesture, orientation and the
    /// static layer are not affected.
    pub fn set_game(&mut self, game: Position)
        requires
            old(self).wf(),
        ensures
            final(self).wf(),
            *final(self) == (ChessBoard { logic: game, ..*old(self) }),
    {
        self.logic = game;
    }

    /// The width that the board asks for, in pixels.
    pub fn width(&self) -> (w: u16)
        ensures
            w == self.size,
    {
        self.size
    }

    /// The height that the board asks for, in pixels.
    pub fn height(&self) -> (h: u16)
        ensures
            h == self.size,
    {
        self.size
    }

    /// The space that the board takes in a layout: a square of its size.
    pub fn layout(&self) -> (extent: (u16, u16))
        ensures
            extent == (self.size, self.size),
    {
        (self.size, self.size)
    }

    /// Serves a drawing request.
    ///
    /// The static layer comes from the cache, which lays it out only when
    /// size or orientation have changed since it last did. Turn indicator,
    /// resting pieces and dragged piece are laid out from the position and
    /// the gesture as they are now. Nothing but the cache is changed.
    pub fn draw(&mut self) -> (frame: Frame<'_>)
        requires
            old(self).wf(),
        ensures
            final(self).wf(),
            old(self).background.draws_to(&final(self).background),
            *final(self) == (ChessBoard { background: final(self).background, ..*old(self) }),
            frame.static_layer@ == spec_static_layer(
                old(self).size,
                old(self).reversed,
                old(self).palette(),
            ),
            final(self).background.cached_layer() == Some(frame.static_layer@),
            final(self).background.spec_invalidations() == old(
                self,
            ).background.spec_invalidations(),
            frame.turn == spec_turn_disc(
                old(self).size as int,
                white_to_move(old(self).logic.fen()),
            ),
            frame.pieces@ == resting_sprites(
                old(self).logic.fen(),
                old(self).size as int,
                old(self).reversed,
                old(self).gesture.lifted(),
                64,
            ),
            frame.dragged == spec_dragged_sprite(old(self).gesture, old(self).size as int),
    {
        let turn = DrawingHelper::draw_player_turn(self);
        let pieces = DrawingHelper::draw_pieces(self);
        let dragged = DrawingHelper::draw_moved_piece(self);
        let static_layer = self.background.draw();
        Frame { static_layer, turn, pieces, dragged }
    }

    /// Takes an event from the windowing layer.
    ///
    /// The left button going down is a press and its coming up a release,
    /// both where the pointer was last seen; a movement of the pointer is
    /// recorded and then passed on as a move. Everything else is ignored
    /// and changes nothing. Returned are whether the event was used and, for
    /// a release that played a move, the FEN record of the new position.
    pub fn on_event(&mut self, event: Event) -> (r: (Status, Option<String>))
        requires
            old(self).wf(),
        ensures
            final(self).wf(),
            r.0 == spec_status(event),
            match event {
                Event::ButtonPressed(Button::Left) => {
                    &&& r.1 is None
                    &&& *final(self) == (ChessBoard {
                        gesture: spec_press(
                            old(self).gesture,
                            old(self).pointer(),
                            old(self).size,
                            old(self).reversed,
                            old(self).logic.fen(),
                        ),
                        ..*old(self)
                    })
                },
                Event::ButtonReleased(Button::Left) => {
                    &&& *final(self) == (ChessBoard {
                        gesture: GestureState::Idle,
                        logic: final(self).logic,
                        ..*old(self)
                    })
                    &&& match spec_outcome(
                        old(self).gesture,
                        old(self).pointer(),
                        old(self).size,
                        old(self).reversed,
                        old(self).logic.fen(),
                        old(self).logic.moves(),
                    ) {
                        Some(fen) => final(self).logic.fen() == fen && r.1 is Some && r.1->0@
                            == fen,
                        None => final(self).logic == old(self).logic && r.1 is None,
                    }
                },
                Event::CursorMoved { position } => {
                    &&& r.1 is None
                    &&& *final(self) == (ChessBoard {
                        mouse_x: position.x,
                        mouse_y: position.y,
                        gesture: spec_move(old(self).gesture, position),
                        ..*old(self)
                    })
                },
                _ => r.1 is None && *final(self) == *old(self),
            },
    {
        match event {
            Event::ButtonPressed(button) => match button {
                Button::Left => {
                    MouseHandler::handle_left_button_pressed(self);
                    (Status::Captured, None)
                },
                _ => (Status::Ignored, None),
            },
            Event::ButtonReleased(button) => match button {
                Button::Left => {
                    let announced = MouseHandler::handle_left_button_released(self);
                    (Status::Captured, announced)
                },
                _ => (Status::Ignored, None),
            },
            Event::CursorMoved { position } => {
                self.mouse_x = position.x;
                self.mouse_y = position.y;
                MouseHandler::handle_mouse_moved(self);
                (Status::Captured, None)
            },
            Event::Unrelated => (Status::Ignored, None),
        }
    }
}

/// Two toggles restore the orientation: the board is turned as it was,
/// with the position, the size and the gesture it had, and the static layer
/// has been invalidated twice.
pub proof fn lemma_two_toggles_restore(before: ChessBoard, between: ChessBoard, after: ChessBoard)
    requires
        before.wf(),
        between.wf(),
        before.toggles_to(&between),
        between.toggles_to(&after),
    ensures
        after.reversed == before.reversed,
        after.logic == before.logic,
        after.size == before.size,
        after.gesture == before.gesture,
        after.background.spec_invalidations() == before.background.spec_invalidations() + 2,
        !after.background.is_fresh(),
{
}

} // verus!
