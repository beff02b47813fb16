//! Interaction and coordinate-resolution core of a chessboard widget.
//!
//! The board shows a chess position and lets the user move a piece by
//! pressing on it, dragging it and releasing it. This library decides what
//! each pointer event does and what each drawing request shows; the chess
//! rules are those of the `pleco` engine, and drawing and windowing are left
//! to whoever embeds the board.
//!
//! - [`mapper`] converts between pointer positions and squares.
//! - [`mouse_handler`] is the gesture state machine.
//! - [`position`] asks the engine for pieces and legal moves and resolves a
//!   finished gesture into a move; [`engine`], [`fen`] and [`playable`] stand
//!   between it and the engine.
//! - [`layout`], [`background`] and [`drawing_helper`] lay out the layers of
//!   the board; [`background`] keeps the static layer between requests.
//! - [`chessboard`] is the component that owns all of it, and [`gui`] the
//!   application's state around the board.
//!
//! Lengths and pointer positions are integers counted in sub-pixel units,
//! [`mapper::UNITS_PER_PIXEL`] to the pixel, so that every cell boundary and
//! every label anchor of a board of any size is a whole number.

pub mod square;
pub mod mapper;
pub mod utils;
pub mod primitives;
pub mod pieces_vectors;
pub mod engine;
pub mod fen;
pub mod playable;
pub mod position;
pub mod layout;
pub mod background;
pub mod drawing_helper;
pub mod mouse_handler;
pub mod chessboard;
pub mod gui;
