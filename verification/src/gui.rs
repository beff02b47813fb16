//! The application's state around the board: the game being played and
//! the side shown at the bottom.

use vstd::prelude::*;
use vstd::string::StringExecFns;
use crate::chessboard::ChessBoard;
use crate::position::{Player, Position, admitted};

verus! {

/// What the user interface asks of the application.
#[derive(Debug, Clone)]
pub enum Message {
    /// Turn the board round.
    ToggleBoardOrientation,
    /// Take the position with this FEN record as the game's position.
    UpdateBoardPosition(String),
}

/// The size of the board that the application shows, in pixels.
pub const BOARD_SIZE: u16 = 400;

/// The application's state.
pub struct App {
    /// The position of the game being played.
    pub game: Position,
    /// Whether the board is shown from Black's side.
    pub black_at_bottom: bool,
}

impl App {
    /// The application as it starts: a new game, White at the bottom.
    pub fn new() -> (app: App)
        ensures
            app.game.fen() == "rnbqkbnr/pppppppp/8/8/8/8/PPPPPPPP/RNBQKBNR w KQkq - 0 1"@,
            app.game.side_to_move() == Player::White,
            !app.black_at_bottom,
    {
        App { game: Position::start(), black_at_bottom: false }
    }

    /// The window's title.
    pub fn title(&self) -> (title: String)
        ensures
            title@ == "Peer chess"@,
    {
        String::from_str("Peer chess")
    }

    /// Carries out a message.
    ///
    /// A toggle turns the board round and leaves the game alone. A position
    /// update replaces the game's position when the text is taken as a
    /// position: a plain FEN record that the engine takes and that describes
    /// a regular position. Any other text is refused, and the application
    /// stays exactly as it was.
    pub fn update(&mut self, message: Message)
        ensures
            match message {
                Message::ToggleBoardOrientation => {
                    &&& final(self).black_at_bottom == !old(self).black_at_bottom
                    &&& final(self).game == old(self).game
                },
                Message::UpdateBoardPosition(text) => {
                    &&& final(self).black_at_bottom == old(self).black_at_bottom
                    &&& match admitted(text@) {
                        Some(fen) => final(self).game.fen() == fen,
                        None => final(self).game == old(self).game,
                    }
                },
            },
    {
        match message {
            Message::ToggleBoardOrientation => {
                self.black_at_bottom = !self.black_at_bottom;
            },
            Message::UpdateBoardPosition(new_fen) => {
                match Position::from_fen(new_fen.as_str()) {
                    Ok(new_logic) => {
                        self.game = new_logic;
                    },
                    Err(_) => {},
                }
            },
        }
    }

    /// The board as the application shows it: of the standard size, with
    /// the game's position on it, turned as the application is.
    pub fn view(&self) -> (board: ChessBoard)
        ensures
            board.is_initial(BOARD_SIZE, self.black_at_bottom),
            board.logic.fen() == self.game.fen(),
            board.logic.moves() == self.game.moves(),
    {
        let mut board = ChessBoard::with_orientation(BOARD_SIZE, self.black_at_bottom);
        board.set_game(self.game.duplicate());
        board
    }
}

} // verus!
