//! Layout of everything the board shows, layer by layer.
//!
//! Backdrop, cells and labels make up the static layer. The turn
//! indicator, the resting pieces and the dragged piece are laid out anew at
//! every request, from the position and the gesture as they are then.

use vstd::prelude::*;
use crate::chessboard::{ChessBoard, GestureState};
use crate::engine::fen_piece_at;
use crate::fen::white_to_move;
use crate::layout::{backdrop, cells, labels, spec_backdrop, spec_cells, spec_labels};
use crate::mapper::{cell_extent, spec_square_to_pixel, square_to_pixel};
use crate::position::{Piece, Player, piece_of_code};
use crate::primitives::{Color, Label, Quad, Rectangle, Sprite, black, white};
use crate::square::Square;
use crate::utils::Utils;

verus! {

/// Lays out each layer of the board.
pub struct DrawingHelper {}

/// The disc that shows whose turn it is: half a cell wide, in the corner
/// beyond the last cell, white when White is to move and black otherwise.
pub open spec fn spec_turn_disc(size: int, white_to_move: bool) -> Quad {
    Quad {
        bounds: Rectangle {
            x: (170 * size) as i64,
            y: (170 * size) as i64,
            width: (10 * size) as i64,
            height: (10 * size) as i64,
        },
        radius: (10 * size) as i64,
        color: if white_to_move {
            white()
        } else {
            black()
        },
    }
}

/// The sprite of `piece` resting on `square`: it fills the square's cell.
pub open spec fn sprite_on(piece: Piece, square: Square, size: int, reversed: bool) -> Sprite {
    Sprite {
        piece,
        bounds: Rectangle {
            x: spec_square_to_pixel(square, size, reversed).x,
            y: spec_square_to_pixel(square, size, reversed).y,
            width: cell_extent(size) as i64,
            height: cell_extent(size) as i64,
        },
    }
}

/// The square that is looked at `k`-th when the pieces are laid out: the
/// eighth rank first, each rank from the a-file to the h-file.
pub open spec fn scan_square(k: int) -> Square {
    Square { file: (k % 8) as u8, rank: (7 - k / 8) as u8 }
}

/// The sprites of the resting pieces among the first `n` squares looked
/// at: one for each occupied square, but none for the square `lifted`, whose
/// piece is in the air.
pub open spec fn resting_sprites(
    fen: Seq<char>,
    size: int,
    reversed: bool,
    lifted: Option<Square>,
    n: int,
) -> Seq<Sprite>
    decreases n,
{
    if n <= 0 {
        Seq::empty()
    } else {
        let before = resting_sprites(fen, size, reversed, lifted, n - 1);
        let square = scan_square(n - 1);
        match piece_of_code(fen_piece_at(fen, square.index())) {
            Some(piece) => if lifted == Some(square) {
                before
            } else {
                before.push(sprite_on(piece, square, size, reversed))
            },
            None => before,
        }
    }
}

/// The sprite of the piece in the air, if there is one: a cell wide, its
/// corner at the pointer's position as the gesture last recorded it.
pub open spec fn spec_dragged_sprite(gesture: GestureState, size: int) -> Option<Sprite> {
    match gesture {
        GestureState::Idle => None,
        GestureState::Dragging { piece, current_pixel, .. } => Some(
            Sprite {
                piece,
                bounds: Rectangle {
                    x: current_pixel.x,
                    y: current_pixel.y,
                    width: cell_extent(size) as i64,
                    height: cell_extent(size) as i64,
                },
            },
        ),
    }
}

impl DrawingHelper {
    /// The backdrop: the whole widget in the board's background colour.
    pub fn draw_background(board: &ChessBoard) -> (quad: Quad)
        ensures
            quad == spec_backdrop(board.size as int, board.background_color),
    {
        backdrop(board.size, board.background_color)
    }

    /// The 64 cells of the grid.
    pub fn draw_cells(board: &ChessBoard) -> (quads: Vec<Quad>)
        ensures
            quads@ == spec_cells(
                board.size as int,
                board.white_cell_color,
                board.black_cell_color,
            ),
    {
        cells(board.size, board.white_cell_color, board.black_cell_color)
    }

    /// The 32 coordinate labels, placed by the board's orientation.
    pub fn draw_coordinates(board: &ChessBoard) -> (texts: Vec<Label>)
        ensures
            texts@ == spec_labels(board.size as int, board.reversed, board.text_color),
    {
        labels(board.size, board.reversed, board.text_color)
    }

    /// The disc that shows whose turn it is.
    pub fn draw_player_turn(board: &ChessBoard) -> (quad: Quad)
        ensures
            quad == spec_turn_disc(board.size as int, white_to_move(board.logic.fen())),
    {
        let half: i64 = 10 * (board.size as i64);
        let corner: i64 = 170 * (board.size as i64);
        let color = match board.logic.turn() {
            Player::White => Color::from_rgb8(255, 255, 255),
            Player::Black => Color::from_rgb8(0, 0, 0),
        };
        Quad {
            bounds: Rectangle { x: corner, y: corner, width: half, height: half },
            radius: half,
            color,
        }
    }

    /// The resting pieces: a sprite for every occupied square except the one
    /// whose piece is being dragged.
    pub fn draw_pieces(board: &ChessBoard) -> (sprites: Vec<Sprite>)
        ensures
            sprites@ == resting_sprites(
                board.logic.fen(),
                board.size as int,
                board.reversed,
                board.gesture.lifted(),
                64,
            ),
    {
        let extent: i64 = 20 * (board.size as i64);
        let mut sprites: Vec<Sprite> = Vec::new();
        let mut row: u8 = 0;
        while row < 8
            invariant
                0 <= row <= 8,
                extent == cell_extent(board.size as int),
                sprites@ == resting_sprites(
                    board.logic.fen(),
                    board.size as int,
                    board.reversed,
                    board.gesture.lifted(),
                    row * 8,
                ),
            decreases 8 - row,
        {
            let mut col: u8 = 0;
            while col < 8
                invariant
                    0 <= row < 8,
                    0 <= col <= 8,
                    extent == cell_extent(board.size as int),
                    sprites@ == resting_sprites(
                        board.logic.fen(),
                        board.size as int,
                        board.reversed,
                        board.gesture.lifted(),
                        row * 8 + col,
                    ),
                decreases 8 - col,
            {
                let file = Utils::coord_file_to_pleco_file(col as i32);
                let rank = Utils::coord_rank_to_pleco_rank(7 - row as i32);
                let square = Square { file, rank };
                proof {
                    let k = row * 8 + col;
                    assert(k % 8 == col && k / 8 == row);
                    assert(square == scan_square(k));
                }
                let lifted = match board.gesture {
                    GestureState::Dragging { start_square, piece: _, current_pixel: _ } => {
                        start_square.file == file && start_square.rank == rank
                    },
                    GestureState::Idle => false,
                };
                if !lifted {
                    if let Some(piece) = board.logic.piece_at(square) {
                        let corner = square_to_pixel(square, board.size, board.reversed);
                        sprites.push(
                            Sprite {
                                piece,
                                bounds: Rectangle {
                                    x: corner.x,
                                    y: corner.y,
                                    width: extent,
                                    height: extent,
                                },
                            },
                        );
                    }
                }
                col = col + 1;
            }
            row = row + 1;
        }
        sprites
    }

    /// The dragged piece, drawn where the pointer is.
    pub fn draw_moved_piece(board: &ChessBoard) -> (sprite: Option<Sprite>)
        ensures
            sprite == spec_dragged_sprite(board.gesture, board.size as int),
    {
        match board.gesture {
            GestureState::Idle => None,
            GestureState::Dragging { start_square: _, piece, current_pixel } => {
                let extent: i64 = 20 * (board.size as i64);
                Some(
                    Sprite {
                        piece,
                        bounds: Rectangle {
                            x: current_pixel.x,
                            y: current_pixel.y,
                            width: extent,
                            height: extent,
                        },
                    },
                )
            },
        }
    }

    /// The image that is drawn for what stands on a square: the piece's
    /// image, or nothing for an empty square.
    pub fn pleco_piece_to_image_handle(board: &ChessBoard, piece: Option<Piece>) -> (path: Option<
        &'static str,
    >)
        ensures
            path == (match piece {
                Some(p) => Some(board.pieces_images.path_of(p)),
                None => None,
            }),
    {
        match piece {
            Some(p) => Some(board.pieces_images.image(p)),
            None => None,
        }
    }
}

} // verus!
