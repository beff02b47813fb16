//! Which positions the engine can be asked about, and which moves it can
//! be told to play.
//!
//! The engine expects a position that can arise in a game, and it panics
//! or writes past its list of moves on some that cannot. Before it is asked
//! for moves or told to play one, the library therefore tests what the
//! engine relies on: that the record is plain, that every castling right
//! still has its king and rook on their home squares, that the en-passant
//! square is empty, that the pieces of the side to move reach no more
//! squares than the engine's list of moves holds, that the counters have
//! room for one more move, and that the move does not take a king.
//!
//! The count of squares reached is a bound on the number of moves, not the
//! number itself: it leaves checks and pins aside. It is exceeded only
//! where a side has far more queens than a game gives it.

use vstd::prelude::*;
use crate::engine::{
    EngineMove, board_fen, engine_fen, engine_piece_at, engine_white_to_move, fen_piece_at,
};
use crate::fen::{
    FenFacts, ascii_bytes, en_passant_square, fen_facts, field_code, is_en_passant_code, scan_fen,
    white_to_move,
};

verus! {

/// The engine's code of an empty square.
pub const EMPTY: u8 = 0;

/// The engine's code of White's rook.
pub const WHITE_ROOK: u8 = 4;

/// The engine's code of White's king.
pub const WHITE_KING: u8 = 6;

/// The engine's code of Black's rook.
pub const BLACK_ROOK: u8 = 12;

/// The engine's code of Black's king.
pub const BLACK_KING: u8 = 14;

/// The largest clock that leaves room for one more half-move.
pub const LAST_OPEN_CLOCK: u32 = 32766;

/// The largest move number that leaves room for one more move.
pub const LAST_OPEN_MOVE: u32 = 32767;

/// Whether `king` and `rook` stand on the squares numbered `king_home` and
/// `rook_home` in the position `fen`.
pub open spec fn at_home(fen: Seq<char>, king: u8, king_home: int, rook: u8, rook_home: int) -> bool {
    fen_piece_at(fen, king_home) == king && fen_piece_at(fen, rook_home) == rook
}

/// Whether every castling right of the record has its king and its rook on
/// their home squares: e1 with h1 or a1 for White, e8 with h8 or a8 for
/// Black.
pub open spec fn castling_sound(fen: Seq<char>) -> bool {
    &&& fen_facts(fen) matches Some(facts)
    &&& facts.white_king_side ==> at_home(fen, WHITE_KING, 4, WHITE_ROOK, 7)
    &&& facts.white_queen_side ==> at_home(fen, WHITE_KING, 4, WHITE_ROOK, 0)
    &&& facts.black_king_side ==> at_home(fen, BLACK_KING, 60, BLACK_ROOK, 63)
    &&& facts.black_queen_side ==> at_home(fen, BLACK_KING, 60, BLACK_ROOK, 56)
}

/// Whether the en-passant square of the record, if it names one, is empty.
pub open spec fn en_passant_clear(fen: Seq<char>) -> bool {
    &&& fen_facts(fen) matches Some(facts)
    &&& facts.en_passant matches Some(square) ==> fen_piece_at(fen, square as int) == EMPTY
}

/// The number of moves that the engine's list of moves is sure to hold.
pub const MOVE_LIST_ROOM: u32 = 248;

/// Whether `code` is the code of a piece of the side to move.
pub open spec fn is_own(code: u8, white_to_move: bool) -> bool {
    if white_to_move {
        1 <= code <= 6
    } else {
        9 <= code <= 14
    }
}

/// The kind of a piece of the side to move: 1 for a pawn, then knight,
/// bishop, rook, queen, and 6 for the king.
pub open spec fn kind_of(code: u8, white_to_move: bool) -> int {
    if white_to_move {
        code as int
    } else {
        code - 8
    }
}

/// Whether `(file, rank)` is a square of the board.
pub open spec fn on_board(file: int, rank: int) -> bool {
    0 <= file < 8 && 0 <= rank < 8
}

/// The code of what stands on `(file, rank)`.
pub open spec fn code_at(fen: Seq<char>, file: int, rank: int) -> u8 {
    fen_piece_at(fen, rank * 8 + file)
}

/// Number of squares that a piece of the side to move can go to from
/// `(file, rank)` along the line that `(df, dr)` steps, in at most `steps`
/// steps: the empty squares up to the first occupied one, and that one too
/// when it holds a piece of the other side.
pub open spec fn ray(
    fen: Seq<char>,
    white_to_move: bool,
    file: int,
    rank: int,
    df: int,
    dr: int,
    steps: nat,
) -> nat
    decreases steps,
{
    if steps == 0 || !on_board(file + df, rank + dr) {
        0
    } else {
        let code = code_at(fen, file + df, rank + dr);
        if code == EMPTY {
            1 + ray(fen, white_to_move, file + df, rank + dr, df, dr, (steps - 1) as nat)
        } else if is_own(code, white_to_move) {
            0
        } else {
            1
        }
    }
}

/// 1 when a piece of the side to move can jump from `(file, rank)` by
/// `(df, dr)`: when that lands on the board and not on a piece of its own
/// side; else 0.
pub open spec fn hop(fen: Seq<char>, white_to_move: bool, file: int, rank: int, df: int, dr: int) -> nat {
    if on_board(file + df, rank + dr) && !is_own(
        code_at(fen, file + df, rank + dr),
        white_to_move,
    ) {
        1
    } else {
        0
    }
}

/// Squares reached along the four straight lines.
pub open spec fn straight(fen: Seq<char>, w: bool, f: int, r: int) -> nat {
    ray(fen, w, f, r, 1, 0, 7) + ray(fen, w, f, r, -1, 0, 7) + ray(fen, w, f, r, 0, 1, 7) + ray(
        fen,
        w,
        f,
        r,
        0,
        -1,
        7,
    )
}

/// Squares reached along the four diagonals.
pub open spec fn diagonal(fen: Seq<char>, w: bool, f: int, r: int) -> nat {
    ray(fen, w, f, r, 1, 1, 7) + ray(fen, w, f, r, 1, -1, 7) + ray(fen, w, f, r, -1, 1, 7) + ray(
        fen,
        w,
        f,
        r,
        -1,
        -1,
        7,
    )
}

/// Squares reached by a knight's jump.
pub open spec fn jumps(fen: Seq<char>, w: bool, f: int, r: int) -> nat {
    hop(fen, w, f, r, 1, 2) + hop(fen, w, f, r, 2, 1) + hop(fen, w, f, r, 2, -1) + hop(
        fen,
        w,
        f,
        r,
        1,
        -2,
    ) + hop(fen, w, f, r, -1, -2) + hop(fen, w, f, r, -2, -1) + hop(fen, w, f, r, -2, 1) + hop(
        fen,
        w,
        f,
        r,
        -1,
        2,
    )
}

/// Squares reached by a king's step.
pub open spec fn steps_around(fen: Seq<char>, w: bool, f: int, r: int) -> nat {
    hop(fen, w, f, r, 1, 0) + hop(fen, w, f, r, 1, 1) + hop(fen, w, f, r, 0, 1) + hop(
        fen,
        w,
        f,
        r,
        -1,
        1,
    ) + hop(fen, w, f, r, -1, 0) + hop(fen, w, f, r, -1, -1) + hop(fen, w, f, r, 0, -1) + hop(
        fen,
        w,
        f,
        r,
        1,
        -1,
    )
}

/// 1 when `(file, rank)` is an empty square of the board, else 0.
pub open spec fn free(fen: Seq<char>, file: int, rank: int) -> nat {
    if on_board(file, rank) && code_at(fen, file, rank) == EMPTY {
        1
    } else {
        0
    }
}

/// 1 when a pawn of the side to move may take on `(file, rank)`: when a
/// piece of the other side stands there, or when the square is empty and
/// lies on the rank where pawns are taken in passing (the sixth, seen from
/// the side to move); else 0.
pub open spec fn prey(fen: Seq<char>, w: bool, file: int, rank: int) -> nat {
    if !on_board(file, rank) {
        0
    } else if code_at(fen, file, rank) == EMPTY {
        if rank == (if w {
            5int
        } else {
            2int
        }) {
            1
        } else {
            0
        }
    } else if is_own(code_at(fen, file, rank), w) {
        0
    } else {
        1
    }
}

/// A bound on the number of moves of a pawn of the side to move on
/// `(file, rank)`: one step ahead onto an empty square, two from its home
/// rank when both squares are empty, and one to either side ahead where it
/// may take; four times as many when the step takes it to the last rank,
/// for the four pieces it may become.
pub open spec fn pawn_reach(fen: Seq<char>, w: bool, file: int, rank: int) -> nat {
    let dir: int = if w {
        1
    } else {
        -1
    };
    let home: int = if w {
        1
    } else {
        6
    };
    let ahead = free(fen, file, rank + dir);
    let double = if rank == home && ahead == 1 {
        free(fen, file, rank + 2 * dir)
    } else {
        0
    };
    let n = ahead + double + prey(fen, w, file + 1, rank + dir) + prey(
        fen,
        w,
        file - 1,
        rank + dir,
    );
    if rank + dir == home + 6 * dir {
        4 * n
    } else {
        n
    }
}

/// A bound on the number of moves that the piece on `(file, rank)` has,
/// when it belongs to the side to move; 0 when it does not or the square is
/// empty. A queen, rook or bishop has a move for every square it reaches
/// along its lines, a knight for every jump, a king for every step and at
/// most two castlings.
pub open spec fn reach(fen: Seq<char>, w: bool, file: int, rank: int) -> nat {
    let code = code_at(fen, file, rank);
    let kind = kind_of(code, w);
    if !is_own(code, w) {
        0
    } else if kind == 1 {
        pawn_reach(fen, w, file, rank)
    } else if kind == 2 {
        jumps(fen, w, file, rank)
    } else if kind == 3 {
        diagonal(fen, w, file, rank)
    } else if kind == 4 {
        straight(fen, w, file, rank)
    } else if kind == 5 {
        straight(fen, w, file, rank) + diagonal(fen, w, file, rank)
    } else {
        steps_around(fen, w, file, rank) + 2
    }
}

/// A bound on the number of moves of the side to move: the sum of the
/// reach of its pieces on the first `n` squares.
pub open spec fn mobility(fen: Seq<char>, n: int) -> nat
    decreases n,
{
    if n <= 0 {
        0
    } else {
        mobility(fen, n - 1) + reach(fen, white_to_move(fen), (n - 1) % 8, (n - 1) / 8)
    }
}

/// Whether the position is regular: one that the engine can be asked about.
pub open spec fn regular(fen: Seq<char>) -> bool {
    castling_sound(fen) && en_passant_clear(fen) && mobility(fen, 64) <= MOVE_LIST_ROOM
}

/// Whether the counters of the record have room for one more move.
pub open spec fn clocks_open(fen: Seq<char>) -> bool {
    &&& fen_facts(fen) matches Some(facts)
    &&& facts.halfmove_clock <= LAST_OPEN_CLOCK
    &&& facts.move_number <= LAST_OPEN_MOVE
}

/// Whether the move reaches a square on which a king stands.
pub open spec fn takes_king(fen: Seq<char>, m: EngineMove) -> bool {
    fen_piece_at(fen, m.target as int) == WHITE_KING || fen_piece_at(fen, m.target as int)
        == BLACK_KING
}

/// Whether the engine can be told to play `m` in the position `fen`.
pub open spec fn playable(fen: Seq<char>, m: EngineMove) -> bool {
    regular(fen) && clocks_open(fen) && m.target < 64 && !takes_king(fen, m)
}

/// Tests whether a castling right is backed by king and rook.
fn backed(board: &pleco::Board, right: bool, king: u8, king_home: u8, rook: u8, rook_home: u8) -> (r:
    bool)
    requires
        king_home < 64,
        rook_home < 64,
    ensures
        r == (right ==> at_home(board_fen(*board), king, king_home as int, rook, rook_home as int)),
{
    !right || (engine_piece_at(board, king_home) == king && engine_piece_at(board, rook_home)
        == rook)
}

/// What stands on `(file, rank)`.
fn look(board: &pleco::Board, file: i8, rank: i8) -> (code: u8)
    requires
        on_board(file as int, rank as int),
    ensures
        code == code_at(board_fen(*board), file as int, rank as int),
{
    engine_piece_at(board, (rank * 8 + file) as u8)
}

/// Whether `code` is the code of a piece of the side to move.
fn own(code: u8, white_to_move: bool) -> (r: bool)
    ensures
        r == is_own(code, white_to_move),
{
    if white_to_move {
        1 <= code && code <= 6
    } else {
        9 <= code && code <= 14
    }
}

/// Walks a line and counts the squares reached.
fn ray_of(board: &pleco::Board, w: bool, file: i8, rank: i8, df: i8, dr: i8, steps: u8) -> (r: u32)
    requires
        on_board(file as int, rank as int),
        -1 <= df <= 1,
        -1 <= dr <= 1,
        steps <= 7,
    ensures
        r == ray(board_fen(*board), w, file as int, rank as int, df as int, dr as int, steps as nat),
        r <= steps,
    decreases steps,
{
    let f = file + df;
    let k = rank + dr;
    if steps == 0 || f < 0 || f > 7 || k < 0 || k > 7 {
        return 0;
    }
    let code = look(board, f, k);
    if code == EMPTY {
        1 + ray_of(board, w, f, k, df, dr, steps - 1)
    } else if own(code, w) {
        0
    } else {
        1
    }
}

/// Tests one jump.
fn hop_of(board: &pleco::Board, w: bool, file: i8, rank: i8, df: i8, dr: i8) -> (r: u32)
    requires
        on_board(file as int, rank as int),
        -2 <= df <= 2,
        -2 <= dr <= 2,
    ensures
        r == hop(board_fen(*board), w, file as int, rank as int, df as int, dr as int),
        r <= 1,
{
    let f = file + df;
    let k = rank + dr;
    if f < 0 || f > 7 || k < 0 || k > 7 {
        return 0;
    }
    if own(look(board, f, k), w) {
        0
    } else {
        1
    }
}

/// Counts the squares reached along the four straight lines.
fn straight_of(board: &pleco::Board, w: bool, f: i8, r: i8) -> (n: u32)
    requires
        on_board(f as int, r as int),
    ensures
        n == straight(board_fen(*board), w, f as int, r as int),
        n <= 28,
{
    ray_of(board, w, f, r, 1, 0, 7) + ray_of(board, w, f, r, -1, 0, 7) + ray_of(
        board,
        w,
        f,
        r,
        0,
        1,
        7,
    ) + ray_of(board, w, f, r, 0, -1, 7)
}

/// Counts the squares reached along the four diagonals.
fn diagonal_of(board: &pleco::Board, w: bool, f: i8, r: i8) -> (n: u32)
    requires
        on_board(f as int, r as int),
    ensures
        n == diagonal(board_fen(*board), w, f as int, r as int),
        n <= 28,
{
    ray_of(board, w, f, r, 1, 1, 7) + ray_of(board, w, f, r, 1, -1, 7) + ray_of(
        board,
        w,
        f,
        r,
        -1,
        1,
        7,
    ) + ray_of(board, w, f, r, -1, -1, 7)
}

/// Counts the squares reached by a knight's jump.
fn jumps_of(board: &pleco::Board, w: bool, f: i8, r: i8) -> (n: u32)
    requires
        on_board(f as int, r as int),
    ensures
        n == jumps(board_fen(*board), w, f as int, r as int),
        n <= 8,
{
    hop_of(board, w, f, r, 1, 2) + hop_of(board, w, f, r, 2, 1) + hop_of(board, w, f, r, 2, -1)
        + hop_of(board, w, f, r, 1, -2) + hop_of(board, w, f, r, -1, -2) + hop_of(
        board,
        w,
        f,
        r,
        -2,
        -1,
    ) + hop_of(board, w, f, r, -2, 1) + hop_of(board, w, f, r, -1, 2)
}

/// Counts the squares reached by a king's step.
fn steps_around_of(board: &pleco::Board, w: bool, f: i8, r: i8) -> (n: u32)
    requires
        on_board(f as int, r as int),
    ensures
        n == steps_around(board_fen(*board), w, f as int, r as int),
        n <= 8,
{
    hop_of(board, w, f, r, 1, 0) + hop_of(board, w, f, r, 1, 1) + hop_of(board, w, f, r, 0, 1)
        + hop_of(board, w, f, r, -1, 1) + hop_of(board, w, f, r, -1, 0) + hop_of(
        board,
        w,
        f,
        r,
        -1,
        -1,
    ) + hop_of(board, w, f, r, 0, -1) + hop_of(board, w, f, r, 1, -1)
}

/// Tests whether a square is on the board and empty.
fn free_of(board: &pleco::Board, file: i8, rank: i8) -> (r: u32)
    requires
        -2 <= file <= 9,
        -2 <= rank <= 9,
    ensures
        r == free(board_fen(*board), file as int, rank as int),
        r <= 1,
{
    if file < 0 || file > 7 || rank < 0 || rank > 7 {
        return 0;
    }
    if look(board, file, rank) == EMPTY {
        1
    } else {
        0
    }
}

/// Tests whether a pawn may take on a square.
fn prey_of(board: &pleco::Board, w: bool, file: i8, rank: i8) -> (r: u32)
    requires
        -2 <= file <= 9,
        -2 <= rank <= 9,
    ensures
        r == prey(board_fen(*board), w, file as int, rank as int),
        r <= 1,
{
    if file < 0 || file > 7 || rank < 0 || rank > 7 {
        return 0;
    }
    let code = look(board, file, rank);
    let passing: i8 = if w {
        5
    } else {
        2
    };
    if code == EMPTY {
        if rank == passing {
            1
        } else {
            0
        }
    } else if own(code, w) {
        0
    } else {
        1
    }
}

/// Bounds the number of moves of a pawn.
fn pawn_reach_of(board: &pleco::Board, w: bool, file: i8, rank: i8) -> (n: u32)
    requires
        on_board(file as int, rank as int),
    ensures
        n == pawn_reach(board_fen(*board), w, file as int, rank as int),
        n <= 16,
{
    let dir: i8 = if w {
        1
    } else {
        -1
    };
    let home: i8 = if w {
        1
    } else {
        6
    };
    let ahead = free_of(board, file, rank + dir);
    let double = if rank == home && ahead == 1 {
        free_of(board, file, rank + 2 * dir)
    } else {
        0
    };
    let n = ahead + double + prey_of(board, w, file + 1, rank + dir) + prey_of(
        board,
        w,
        file - 1,
        rank + dir,
    );
    if rank + dir == home + 6 * dir {
        4 * n
    } else {
        n
    }
}

/// Bounds the number of moves of what stands on a square.
fn reach_of(board: &pleco::Board, w: bool, file: i8, rank: i8) -> (n: u32)
    requires
        on_board(file as int, rank as int),
    ensures
        n == reach(board_fen(*board), w, file as int, rank as int),
        n <= 56,
{
    let code = look(board, file, rank);
    if !own(code, w) {
        return 0;
    }
    let kind = if w {
        code
    } else {
        code - 8
    };
    if kind == 1 {
        pawn_reach_of(board, w, file, rank)
    } else if kind == 2 {
        jumps_of(board, w, file, rank)
    } else if kind == 3 {
        diagonal_of(board, w, file, rank)
    } else if kind == 4 {
        straight_of(board, w, file, rank)
    } else if kind == 5 {
        straight_of(board, w, file, rank) + diagonal_of(board, w, file, rank)
    } else {
        steps_around_of(board, w, file, rank) + 2
    }
}

/// Adds up the reach of the pieces of the side to move.
pub(crate) fn mobility_of(board: &pleco::Board) -> (r: u32)
    ensures
        r == mobility(board_fen(*board), 64),
{
    let w = engine_white_to_move(board);
    let mut sum: u32 = 0;
    let mut square: i8 = 0;
    while square < 64
        invariant
            0 <= square <= 64,
            w == white_to_move(board_fen(*board)),
            sum == mobility(board_fen(*board), square as int),
            sum <= 56 * square,
        decreases 64 - square,
    {
        sum = sum + reach_of(board, w, square % 8, square / 8);
        square = square + 1;
    }
    sum
}

/// Reads the board's record and tests whether the position is regular;
/// gives the facts of the record if it is.
pub(crate) fn regular_facts(board: &pleco::Board) -> (r: Option<FenFacts>)
    ensures
        r is Some <==> regular(board_fen(*board)),
        r matches Some(facts) ==> fen_facts(board_fen(*board)) == Some(facts),
{
    let text = engine_fen(board);
    let facts = match scan_fen(text.as_str()) {
        Some(facts) => facts,
        None => {
            return None;
        },
    };
    if !backed(board, facts.white_king_side, WHITE_KING, 4, WHITE_ROOK, 7) {
        return None;
    }
    if !backed(board, facts.white_queen_side, WHITE_KING, 4, WHITE_ROOK, 0) {
        return None;
    }
    if !backed(board, facts.black_king_side, BLACK_KING, 60, BLACK_ROOK, 63) {
        return None;
    }
    if !backed(board, facts.black_queen_side, BLACK_KING, 60, BLACK_ROOK, 56) {
        return None;
    }
    match facts.en_passant {
        Some(square) => {
            assert(square < 64) by {
                let code = field_code(
                    ascii_bytes(text@),
                    ascii_bytes(text@).len() as int,
                    3,
                );
                assert(is_en_passant_code(code));
                assert(facts.en_passant == en_passant_square(code));
            }
            if engine_piece_at(board, square) != EMPTY {
                return None;
            }
        },
        None => {},
    }
    if mobility_of(board) > MOVE_LIST_ROOM {
        return None;
    }
    Some(facts)
}

/// Tests whether the engine can be told to play `m` on the board.
pub(crate) fn is_playable(board: &pleco::Board, m: EngineMove) -> (r: bool)
    ensures
        r == playable(board_fen(*board), m),
{
    let facts = match regular_facts(board) {
        Some(facts) => facts,
        None => {
            return false;
        },
    };
    if facts.halfmove_clock > LAST_OPEN_CLOCK || facts.move_number > LAST_OPEN_MOVE {
        return false;
    }
    if m.target >= 64 {
        return false;
    }
    let code = engine_piece_at(board, m.target);
    code != WHITE_KING && code != BLACK_KING
}

} // verus!
