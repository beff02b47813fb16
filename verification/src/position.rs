//! Chess positions, as far as the board component needs them.
//!
//! A [`Position`] owns one board of the rules engine. The library never
//! looks inside it: it asks the engine which piece stands on a square, whose
//! turn it is and which moves are legal, and has the engine play a move.

use vstd::prelude::*;
use crate::engine::{
    EngineMove, board_fen, board_moves, engine_apply, engine_clone, engine_fen, engine_moves,
    engine_parse, engine_piece_at, engine_start, engine_white_to_move, fen_after, fen_parse,
    fen_piece_at, is_listed,
};
use crate::fen::{
    check_plain_fen, is_first_space, is_plain_fen, lemma_white_to_move_at, white_to_move,
};
use crate::playable::{
    is_playable, mobility, mobility_of, playable, regular, regular_facts,
};
use crate::square::Square;

verus! {

/// A piece of one colour: the glyph that is drawn for it.
#[derive(Clone, Copy, Debug, PartialEq, Eq, Structural)]
pub enum Piece {
    WhitePawn,
    WhiteKnight,
    WhiteBishop,
    WhiteRook,
    WhiteQueen,
    WhiteKing,
    BlackPawn,
    BlackKnight,
    BlackBishop,
    BlackRook,
    BlackQueen,
    BlackKing,
}

/// The side that is to move.
#[derive(Clone, Copy, Debug, PartialEq, Eq, Structural)]
pub enum Player {
    White,
    Black,
}

/// Why a text was not taken as a position.
#[derive(Clone, Copy, Debug, PartialEq, Eq, Structural)]
pub enum FenError {
    /// The text is not a plain FEN record, so the engine was not asked.
    NotPlain,
    /// The engine refused the record.
    Rejected,
    /// The engine took the record, but the position is not regular: a
    /// castling right lacks its king or rook, the en-passant square is
    /// occupied, or the pieces of the side to move reach more squares than
    /// the engine's list of moves is sure to hold.
    Irregular,
}

/// The record of the position that a text is taken as, if it is taken: the
/// text must be a plain record that the engine takes and whose position is
/// regular.
pub open spec fn admitted(text: Seq<char>) -> Option<Seq<char>> {
    if is_plain_fen(text) && fen_parse(text) is Some && regular(fen_parse(text)->0) {
        fen_parse(text)
    } else {
        None
    }
}

/// The piece that the engine's piece code stands for: 1 to 6 are White's
/// pawn, knight, bishop, rook, queen and king, 9 to 14 are Black's, and any
/// other code is an empty square.
pub open spec fn piece_of_code(code: u8) -> Option<Piece> {
    if code == 1 {
        Some(Piece::WhitePawn)
    } else if code == 2 {
        Some(Piece::WhiteKnight)
    } else if code == 3 {
        Some(Piece::WhiteBishop)
    } else if code == 4 {
        Some(Piece::WhiteRook)
    } else if code == 5 {
        Some(Piece::WhiteQueen)
    } else if code == 6 {
        Some(Piece::WhiteKing)
    } else if code == 9 {
        Some(Piece::BlackPawn)
    } else if code == 10 {
        Some(Piece::BlackKnight)
    } else if code == 11 {
        Some(Piece::BlackBishop)
    } else if code == 12 {
        Some(Piece::BlackRook)
    } else if code == 13 {
        Some(Piece::BlackQueen)
    } else if code == 14 {
        Some(Piece::BlackKing)
    } else {
        None
    }
}

impl Piece {
    /// The piece with the engine's code `code`, if it is the code of a piece.
    pub fn from_code(code: u8) -> (r: Option<Piece>)
        ensures
            r == piece_of_code(code),
    {
        match code {
            1 => Some(Piece::WhitePawn),
            2 => Some(Piece::WhiteKnight),
            3 => Some(Piece::WhiteBishop),
            4 => Some(Piece::WhiteRook),
            5 => Some(Piece::WhiteQueen),
            6 => Some(Piece::WhiteKing),
            9 => Some(Piece::BlackPawn),
            10 => Some(Piece::BlackKnight),
            11 => Some(Piece::BlackBishop),
            12 => Some(Piece::BlackRook),
            13 => Some(Piece::BlackQueen),
            14 => Some(Piece::BlackKing),
            _ => None,
        }
    }

    /// Whether the piece is White's.
    pub open spec fn is_white(self) -> bool {
        self is WhitePawn || self is WhiteKnight || self is WhiteBishop || self is WhiteRook
            || self is WhiteQueen || self is WhiteKing
    }

    /// The side that owns the piece.
    pub fn player(self) -> (r: Player)
        ensures
            r == (if self.is_white() {
                Player::White
            } else {
                Player::Black
            }),
    {
        match self {
            Piece::WhitePawn
            | Piece::WhiteKnight
            | Piece::WhiteBishop
            | Piece::WhiteRook
            | Piece::WhiteQueen
            | Piece::WhiteKing => Player::White,
            _ => Player::Black,
        }
    }
}

/// Whether a move leaves `start` and reaches `end`.
pub open spec fn joins(m: EngineMove, start: Square, end: Square) -> bool {
    m.source == start.index() && m.target == end.index()
}

/// Whether `i` is the place of the first move in `moves` that leaves
/// `start` and reaches `end`.
pub open spec fn is_first_match(moves: Seq<EngineMove>, start: Square, end: Square, i: int) -> bool {
    &&& 0 <= i < moves.len()
    &&& joins(moves[i], start, end)
    &&& forall|j: int| 0 <= j < i ==> !joins(#[trigger] moves[j], start, end)
}

/// Whether some move in `moves` leaves `start` and reaches `end`.
pub open spec fn has_match(moves: Seq<EngineMove>, start: Square, end: Square) -> bool {
    exists|i: int| 0 <= i < moves.len() && joins(#[trigger] moves[i], start, end)
}

/// The place of the first move in `moves` that leaves `start` and reaches
/// `end`, where there is one.
pub open spec fn first_match(moves: Seq<EngineMove>, start: Square, end: Square) -> int {
    choose|i: int| is_first_match(moves, start, end, i)
}

/// There is at most one first match, and `first_match` names it.
pub proof fn lemma_first_match_unique(moves: Seq<EngineMove>, start: Square, end: Square, i: int)
    requires
        is_first_match(moves, start, end, i),
    ensures
        first_match(moves, start, end) == i,
        has_match(moves, start, end),
{
    let k = first_match(moves, start, end);
    assert(is_first_match(moves, start, end, k));
    if k < i {
        assert(!joins(moves[k], start, end));
    } else if i < k {
        assert(!joins(moves[i], start, end));
    }
}

/// Scans `moves` from the front for a move that leaves `start` and reaches
/// `end`, and gives the place of the first one.
pub fn find_move(moves: &Vec<EngineMove>, start: Square, end: Square) -> (r: Option<usize>)
    requires
        start.wf(),
        end.wf(),
    ensures
        match r {
            Some(i) => is_first_match(moves@, start, end, i as int),
            None => !has_match(moves@, start, end),
        },
        r is Some <==> has_match(moves@, start, end),
        r matches Some(i) ==> i as int == first_match(moves@, start, end),
{
    let source = start.to_index();
    let target = end.to_index();
    let mut i: usize = 0;
    while i < moves.len()
        invariant
            0 <= i <= moves@.len(),
            source == start.index(),
            target == end.index(),
            forall|j: int| 0 <= j < i ==> !joins(#[trigger] moves@[j], start, end),
        decreases moves@.len() - i,
    {
        if moves[i].source == source && moves[i].target == target {
            proof {
                lemma_first_match_unique(moves@, start, end, i as int);
            }
            return Some(i);
        }
        i = i + 1;
    }
    None
}

/// The legal moves of a position with record `fen` for which the engine
/// lists `listed`, as far as the engine can be asked for them: none when
/// the position is not regular.
pub open spec fn spec_moves(fen: Seq<char>, listed: Seq<EngineMove>) -> Seq<EngineMove> {
    if regular(fen) {
        listed
    } else {
        Seq::empty()
    }
}

/// The record of the position that a gesture from `start` to `end` leads
/// to, from a position with record `fen` for which the engine lists the
/// moves `listed`: the position after the first listed move that joins the
/// two squares. There is none when the gesture ended off the board or
/// where it began, when no listed move joins the squares, or when the
/// engine cannot be told to play the move.
pub open spec fn spec_resolve(
    fen: Seq<char>,
    listed: Seq<EngineMove>,
    start: Square,
    end: Option<Square>,
) -> Option<Seq<char>> {
    match end {
        None => None,
        Some(e) => {
            let moves = spec_moves(fen, listed);
            if e != start && has_match(moves, start, e) && playable(
                fen,
                moves[first_match(moves, start, e)],
            ) {
                Some(fen_after(fen, moves[first_match(moves, start, e)].raw))
            } else {
                None
            }
        },
    }
}

/// A chess position, held by the rules engine.
pub struct Position {
    board: pleco::Board,
}

impl Position {
    /// The position's FEN record: what stands for the position in
    /// contracts, but for its moves.
    pub closed spec fn fen(&self) -> Seq<char> {
        board_fen(self.board)
    }

    /// The legal moves that the engine lists for the position, in the
    /// engine's order. Two positions with the same record may differ in
    /// them: the engine remembers how a position was reached.
    pub closed spec fn moves(&self) -> Seq<EngineMove> {
        board_moves(self.board)
    }

    /// The piece on `square`.
    pub open spec fn piece_on(&self, square: Square) -> Option<Piece> {
        piece_of_code(fen_piece_at(self.fen(), square.index()))
    }

    /// The side to move.
    pub open spec fn side_to_move(&self) -> Player {
        if white_to_move(self.fen()) {
            Player::White
        } else {
            Player::Black
        }
    }

    /// The position at the start of a game, with White to move.
    pub fn start() -> (p: Position)
        ensures
            p.fen() == "rnbqkbnr/pppppppp/8/8/8/8/PPPPPPPP/RNBQKBNR w KQkq - 0 1"@,
            p.side_to_move() == Player::White,
    {
        let p = Position { board: engine_start() };
        proof {
            reveal_strlit("rnbqkbnr/pppppppp/8/8/8/8/PPPPPPPP/RNBQKBNR w KQkq - 0 1");
            assert(is_first_space(p.fen(), 43));
            lemma_white_to_move_at(p.fen(), 43);
        }
        p
    }

    /// Reads a position from a FEN record.
    ///
    /// A text that is not a plain record is refused without asking the
    /// engine. A plain record is taken if the engine takes it and the
    /// position it describes is regular.
    pub fn from_fen(text: &str) -> (r: Result<Position, FenError>)
        ensures
            r matches Err(FenError::NotPlain) <==> !is_plain_fen(text@),
            r matches Err(FenError::Rejected) <==> is_plain_fen(text@) && fen_parse(text@) is None,
            r matches Err(FenError::Irregular) <==> is_plain_fen(text@) && fen_parse(text@) is Some
                && !regular(fen_parse(text@)->0),
            r matches Ok(p) ==> admitted(text@) == Some(p.fen()),
            r is Ok <==> admitted(text@) is Some,
    {
        if !check_plain_fen(text) {
            return Err(FenError::NotPlain);
        }
        match engine_parse(text) {
            Ok(board) => {
                if regular_facts(&board).is_some() {
                    Ok(Position { board })
                } else {
                    Err(FenError::Irregular)
                }
            },
            Err(_) => Err(FenError::Rejected),
        }
    }

    /// Writes the position's FEN record.
    pub fn to_fen(&self) -> (text: String)
        ensures
            text@ == self.fen(),
    {
        engine_fen(&self.board)
    }

    /// A second position equal to this one.
    pub fn duplicate(&self) -> (p: Position)
        ensures
            p.fen() == self.fen(),
            p.moves() == self.moves(),
    {
        Position { board: engine_clone(&self.board) }
    }

    /// The piece on `square`, if the square is occupied.
    pub fn piece_at(&self, square: Square) -> (r: Option<Piece>)
        requires
            square.wf(),
        ensures
            r == self.piece_on(square),
    {
        Piece::from_code(engine_piece_at(&self.board, square.to_index()))
    }

    /// A bound on the number of moves of the side to move, counted from
    /// the squares that its pieces reach. The engine is asked for moves only
    /// where this is within the room of its list.
    pub fn mobility(&self) -> (r: u32)
        ensures
            r == mobility(self.fen(), 64),
    {
        mobility_of(&self.board)
    }

    /// Whether the position is regular: whether the engine can be asked
    /// for its moves.
    pub fn is_regular(&self) -> (r: bool)
        ensures
            r == regular(self.fen()),
    {
        regular_facts(&self.board).is_some()
    }

    /// The side to move.
    pub fn turn(&self) -> (r: Player)
        ensures
            r == self.side_to_move(),
    {
        if engine_white_to_move(&self.board) {
            Player::White
        } else {
            Player::Black
        }
    }

    /// The legal moves of the side to move, in the engine's order. A
    /// position that is not regular has none.
    pub fn legal_moves(&self) -> (moves: Vec<EngineMove>)
        ensures
            moves@ == spec_moves(self.fen(), self.moves()),
    {
        if regular_facts(&self.board).is_some() {
            engine_moves(&self.board)
        } else {
            Vec::new()
        }
    }

    /// Resolves a finished gesture into a move.
    ///
    /// A gesture that ended off the board (`end` is `None`) or on the
    /// square where it began is cancelled without asking the engine.
    /// Otherwise the engine's legal moves are
    /// scanned in order; the first that leaves `start` and reaches `end` is
    /// played on a copy of the position, which is returned. When no legal
    /// move joins the two squares there is no new position; nor is there
    /// when the engine cannot be told to play the move, which happens only
    /// in positions that no game leads to and at the far end of the
    /// engine's counters. The position itself is never changed.
    pub fn resolve(&self, start: Square, end: Option<Square>) -> (r: Option<Position>)
        requires
            start.wf(),
            end matches Some(e) ==> e.wf(),
        ensures
            match r {
                Some(p) => spec_resolve(self.fen(), self.moves(), start, end) == Some(p.fen()),
                None => spec_resolve(self.fen(), self.moves(), start, end) is None,
            },
    {
        let target = match end {
            Some(e) => e,
            None => {
                return None;
            },
        };
        if target.file == start.file && target.rank == start.rank {
            return None;
        }
        let moves = self.legal_moves();
        match find_move(&moves, start, target) {
            Some(i) => {
                let chosen = moves[i];
                if !is_playable(&self.board, chosen) {
                    return None;
                }
                let mut board = engine_clone(&self.board);
                assert(is_listed(board_moves(board), chosen)) by {
                    assert(board_moves(board)[i as int] == chosen);
                }
                engine_apply(&mut board, chosen);
                Some(Position { board })
            },
            None => None,
        }
    }
}

} // verus!
