//! The rules engine, `pleco`, as the rest of the library sees it.
//!
//! Nothing here is proved: each item states what `pleco` does, as its source
//! shows it. A board is described by its FEN record. Which piece stands on
//! a square, whose turn it is and what a move leads to depend on that record
//! alone and are stated over it. The list of legal moves does not: the
//! engine keeps, beside what the record tells, the pieces that give check as
//! it found them when the board was made, and lists moves by them. That list
//! is therefore named as a function of the board itself.

use vstd::prelude::*;

verus! {

/// `pleco::Board`: a chess position with the engine's bookkeeping.
#[verifier::external_type_specification]
#[verifier::external_body]
pub struct ExBoard(pleco::Board);

/// `pleco::board::FenBuildError`: why the engine refused a FEN record.
#[verifier::external_type_specification]
#[verifier::external_body]
pub struct ExFenBuildError(pleco::board::FenBuildError);

/// A legal move as the engine reports it: the numbers of the squares it
/// leaves and reaches (a1 is 0, h8 is 63), and the engine's own 16-bit
/// encoding, which also tells promotions and castling apart.
#[derive(Clone, Copy, Debug, PartialEq, Eq, Structural)]
pub struct EngineMove {
    pub source: u8,
    pub target: u8,
    pub raw: u16,
}

/// The FEN record that `pleco::Board::fen` gives for a board.
pub uninterp spec fn board_fen(board: pleco::Board) -> Seq<char>;

/// What `pleco::Board::from_fen` makes of a text: the FEN record of the
/// board it builds, or `None` where it returns an error.
pub uninterp spec fn fen_parse(text: Seq<char>) -> Option<Seq<char>>;

/// The piece code that `pleco::Board::piece_at_sq` gives for square number
/// `square` of the position with this FEN record.
pub uninterp spec fn fen_piece_at(fen: Seq<char>, square: int) -> u8;

/// The legal moves that `pleco::Board::generate_moves` lists for a board, in
/// the engine's order.
pub uninterp spec fn board_moves(board: pleco::Board) -> Seq<EngineMove>;

/// The FEN record of the position that `pleco::Board::apply_move` reaches
/// from the position with record `fen` by the move encoded as `raw`.
pub uninterp spec fn fen_after(fen: Seq<char>, raw: u16) -> Seq<char>;

/// Whether `m` is one of `moves`.
pub open spec fn is_listed(moves: Seq<EngineMove>, m: EngineMove) -> bool {
    exists|i: int| 0 <= i < moves.len() && #[trigger] moves[i] == m
}

/// `pleco::Board::start_pos`: the board set up for a new game. Its FEN
/// record is the standard one, which the engine parses to build it.
#[verifier::external_body]
pub(crate) fn engine_start() -> (board: pleco::Board)
    ensures
        board_fen(board) == "rnbqkbnr/pppppppp/8/8/8/8/PPPPPPPP/RNBQKBNR w KQkq - 0 1"@,
{
    pleco::Board::start_pos()
}

/// `pleco::Board::from_fen`: builds a board from a FEN record, or refuses it.
///
/// The engine panics on a first rank of more than eight squares, on a
/// castling field with a letter other than `KQkq-` and on a move number of
/// 0 or above 32768, and it looks up each side's king without testing that
/// there is one, so the text must be a plain record
/// (`crate::fen::is_plain_fen`), which has none of these.
#[verifier::external_body]
pub(crate) fn engine_parse(text: &str) -> (r: Result<pleco::Board, pleco::board::FenBuildError>)
    requires
        crate::fen::is_plain_fen(text@),
    ensures
        r is Ok <==> fen_parse(text@) is Some,
        r matches Ok(board) ==> fen_parse(text@) == Some(board_fen(board)),
{
    pleco::Board::from_fen(text)
}

/// `pleco::Board::fen`: the board's FEN record.
#[verifier::external_body]
pub(crate) fn engine_fen(board: &pleco::Board) -> (text: String)
    ensures
        text@ == board_fen(*board),
{
    board.fen()
}

/// `Clone` of `pleco::Board`: a board with the same position and the same
/// state of check, so with the same record and the same list of moves.
#[verifier::external_body]
pub(crate) fn engine_clone(board: &pleco::Board) -> (copy: pleco::Board)
    ensures
        board_fen(copy) == board_fen(*board),
        board_moves(copy) == board_moves(*board),
{
    board.clone()
}

/// `pleco::Board::piece_at_sq`: the piece on a square, as the number that
/// `pleco::Piece` assigns to it (0 for none, 1 to 6 for White's pawn to
/// king, 9 to 14 for Black's). The square must be on the board, or the
/// engine may panic.
#[verifier::external_body]
pub(crate) fn engine_piece_at(board: &pleco::Board, square: u8) -> (code: u8)
    requires
        square < 64,
    ensures
        code == fen_piece_at(board_fen(*board), square as int),
{
    board.piece_at_sq(pleco::SQ(square)) as u8
}

/// `pleco::Board::turn`: whether White is to move. The board's record
/// says so in its second field, `w` or `b`, which `pleco::Board::fen` writes
/// from the same turn.
#[verifier::external_body]
pub(crate) fn engine_white_to_move(board: &pleco::Board) -> (white: bool)
    ensures
        white == crate::fen::white_to_move(board_fen(*board)),
{
    match board.turn() {
        pleco::Player::White => true,
        pleco::Player::Black => false,
    }
}

/// `pleco::Board::generate_moves`: the legal moves of the side to move, each
/// handed out with its `get_src_u8`, `get_dest_u8` and `get_raw`.
///
/// The engine looks up the king of the side to move, and for each castling
/// right walks from the king's goal towards the king along the first rank,
/// so the record must be plain and each right must have its king and rook
/// at home. It writes the moves into a list of 252 places (248 on some
/// machines) without testing for its end, so the side to move must not have
/// more moves than that. Both hold of a regular position
/// (`crate::playable::regular`), in which the side to move has at most 248
/// moves.
#[verifier::external_body]
pub(crate) fn engine_moves(board: &pleco::Board) -> (moves: Vec<EngineMove>)
    requires
        crate::playable::regular(board_fen(*board)),
    ensures
        moves@ == board_moves(*board),
{
    board.generate_moves().iter().map(|m| EngineMove {
        source: m.get_src_u8(),
        target: m.get_dest_u8(),
        raw: m.get_raw(),
    }).collect()
}

/// `pleco::Board::apply_move`: plays a move on the board.
///
/// The engine panics on a move that is not legal in the position, so the
/// move must be one that `generate_moves` lists for it. It also panics when
/// a king is taken, when a pawn is taken in passing on an occupied square,
/// and when one of its 16-bit counters runs over, so the move must be
/// playable (`crate::playable::playable`).
#[verifier::external_body]
pub(crate) fn engine_apply(board: &mut pleco::Board, m: EngineMove)
    requires
        is_listed(board_moves(*old(board)), m),
        crate::playable::playable(board_fen(*old(board)), m),
    ensures
        board_fen(*final(board)) == fen_after(board_fen(*old(board)), m.raw),
{
    board.apply_move(pleco::BitMove::new(m.raw))
}

} // verus!
