//! The shape of a FEN record that may be handed to the engine, and what
//! the library reads from such a record itself.
//!
//! The engine parses FEN records, but it does not survive every text: it
//! panics on some malformed fields. A *plain* record is one that it parses
//! without such surprises: six fields of printable ASCII separated by single
//! spaces; a placement field of eight ranks of eight squares each, with one
//! king of each colour; only castling letters in the castling field; an
//! en-passant field that is `-` or names a square; a clock of at most five
//! digits; and a move number from 1 to 32768 written in at most five
//! digits. Every record that the engine writes is plain.

use vstd::prelude::*;

verus! {

/// The separator between fields.
pub const SPACE: u8 = 32;

/// The separator between ranks, `/`.
pub const SLASH: u8 = 47;

/// The letter of White's king, `K`, which is also the letter of White's
/// right to castle on the king's side.
pub const UPPER_K: u8 = 75;

/// The letter of White's queen, `Q`, which is also the letter of White's
/// right to castle on the queen's side.
pub const UPPER_Q: u8 = 81;

/// The letter of Black's king, `k`, which is also the letter of Black's
/// right to castle on the king's side.
pub const LOWER_K: u8 = 107;

/// The letter of Black's queen, `q`, which is also the letter of Black's
/// right to castle on the queen's side.
pub const LOWER_Q: u8 = 113;

/// The dash that stands for an empty castling or en-passant field.
pub const DASH: u8 = 45;

/// Number of separators among the first `n` bytes: the number of the field
/// that position `n` belongs to.
pub open spec fn spaces_before(b: Seq<u8>, n: int) -> nat
    decreases n,
{
    if n <= 0 {
        0
    } else {
        spaces_before(b, n - 1) + if b[n - 1] == SPACE {
            1nat
        } else {
            0nat
        }
    }
}

/// Whether position `i` holds a byte of field number `field`.
pub open spec fn in_field(b: Seq<u8>, i: int, field: nat) -> bool {
    b[i] != SPACE && spaces_before(b, i) == field
}

/// Number of bytes of field `field` among the first `n` bytes.
pub open spec fn field_len(b: Seq<u8>, n: int, field: nat) -> nat
    decreases n,
{
    if n <= 0 {
        0
    } else {
        field_len(b, n - 1, field) + if in_field(b, n - 1, field) {
            1nat
        } else {
            0nat
        }
    }
}

/// Number of bytes equal to `c` in field `field`, among the first `n` bytes.
pub open spec fn count_in_field(b: Seq<u8>, n: int, field: nat, c: u8) -> nat
    decreases n,
{
    if n <= 0 {
        0
    } else {
        count_in_field(b, n - 1, field, c) + if in_field(b, n - 1, field) && b[n - 1] == c {
            1nat
        } else {
            0nat
        }
    }
}

/// Whether `c` is a decimal digit, `0` (48) to `9` (57).
pub open spec fn is_digit(c: u8) -> bool {
    48 <= c <= 57
}

/// The value of a digit, 0 for any other byte.
pub open spec fn digit_value(c: u8) -> nat {
    if is_digit(c) {
        (c - 48) as nat
    } else {
        0
    }
}

/// The number that the bytes of field `field` among the first `n` bytes
/// spell in decimal.
pub open spec fn field_value(b: Seq<u8>, n: int, field: nat) -> nat
    decreases n,
{
    if n <= 0 {
        0
    } else if in_field(b, n - 1, field) {
        field_value(b, n - 1, field) * 10 + digit_value(b[n - 1])
    } else {
        field_value(b, n - 1, field)
    }
}

/// The bytes of field `field` among the first `n` bytes, read as one number
/// in base 256: a field of one byte `c` gives `c`, one of two bytes `c d`
/// gives `256 c + d`.
pub open spec fn field_code(b: Seq<u8>, n: int, field: nat) -> nat
    decreases n,
{
    if n <= 0 {
        0
    } else if in_field(b, n - 1, field) {
        field_code(b, n - 1, field) * 256 + b[n - 1] as nat
    } else {
        field_code(b, n - 1, field)
    }
}

/// Whether `c` is the letter of a piece: one of `PNBRQK` (80, 78, 66, 82,
/// 81, 75) or `pnbrqk` (112, 110, 98, 114, 113, 107).
pub open spec fn is_piece_letter(c: u8) -> bool {
    c == 80 || c == 78 || c == 66 || c == 82 || c == UPPER_Q || c == UPPER_K || c == 112 || c
        == 110 || c == 98 || c == 114 || c == LOWER_Q || c == LOWER_K
}

/// Number of squares that a byte of the placement field stands for: a
/// digit from `1` (49) to `8` (56) for so many empty squares, a piece
/// letter for one.
pub open spec fn squares_of(c: u8) -> nat {
    if 49 <= c <= 56 {
        (c - 48) as nat
    } else if is_piece_letter(c) {
        1
    } else {
        0
    }
}

/// Number of squares that the bytes before position `n` fill of the rank
/// that they belong to.
pub open spec fn rank_fill(b: Seq<u8>, n: int) -> nat
    decreases n,
{
    if n <= 0 {
        0
    } else if b[n - 1] == SLASH || b[n - 1] == SPACE {
        0
    } else {
        rank_fill(b, n - 1) + squares_of(b[n - 1])
    }
}

/// Whether a rank of the placement field ends at position `i`: at a slash
/// of the field, or at the space that closes it.
pub open spec fn rank_ends_at(b: Seq<u8>, i: int) -> bool {
    spaces_before(b, i) == 0 && (b[i] == SLASH || b[i] == SPACE)
}

/// Whether the placement field is made of eight ranks of eight squares:
/// of digits from 1 to 8 and piece letters, with seven slashes, each rank
/// full where it ends.
pub open spec fn placement_sound(b: Seq<u8>) -> bool {
    let n = b.len() as int;
    &&& forall|i: int|
        0 <= i < n && #[trigger] in_field(b, i, 0) ==> b[i] == SLASH || squares_of(b[i]) > 0
    &&& count_in_field(b, n, 0, SLASH) == 7
    &&& forall|i: int| 0 <= i < n && #[trigger] rank_ends_at(b, i) ==> rank_fill(b, i) == 8
}

/// Whether `c` may stand in the castling field.
pub open spec fn is_castling_letter(c: u8) -> bool {
    c == UPPER_K || c == UPPER_Q || c == LOWER_K || c == LOWER_Q || c == DASH
}

/// Whether `code` is the code of an en-passant field: of `-`, or of a file
/// letter from `a` (97) to `h` (104) followed by a rank digit from `1` (49)
/// to `8` (56).
pub open spec fn is_en_passant_code(code: nat) -> bool {
    code == DASH || (97 <= code / 256 <= 104 && 49 <= code % 256 <= 56)
}

/// The number of the square that an en-passant field with this code names
/// (a1 is 0, h8 is 63), or nothing for `-`.
pub open spec fn en_passant_square(code: nat) -> Option<u8> {
    if code == DASH {
        None
    } else {
        Some(((code % 256 - 49) * 8 + (code / 256 - 97)) as u8)
    }
}

/// Whether the bytes form a plain FEN record.
pub open spec fn plain_bytes(b: Seq<u8>) -> bool {
    let n = b.len() as int;
    &&& well_separated(b)
    &&& spaces_before(b, n) == 5
    &&& placement_sound(b)
    &&& count_in_field(b, n, 0, UPPER_K) == 1
    &&& count_in_field(b, n, 0, LOWER_K) == 1
    &&& forall|i: int| 0 <= i < n && #[trigger] in_field(b, i, 2) ==> is_castling_letter(b[i])
    &&& field_len(b, n, 3) <= 2
    &&& is_en_passant_code(field_code(b, n, 3))
    &&& forall|i: int| 0 <= i < n && #[trigger] in_field(b, i, 4) ==> is_digit(b[i])
    &&& field_len(b, n, 4) <= 5
    &&& forall|i: int| 0 <= i < n && #[trigger] in_field(b, i, 5) ==> is_digit(b[i])
    &&& field_len(b, n, 5) <= 5
    &&& 1 <= field_value(b, n, 5) <= 32768
}

/// What the library reads from a plain record: the castling rights, the
/// en-passant square, and the two counters.
#[derive(Clone, Copy, Debug, PartialEq, Eq, Structural)]
pub struct FenFacts {
    /// White may still castle on the king's side (`K`).
    pub white_king_side: bool,
    /// White may still castle on the queen's side (`Q`).
    pub white_queen_side: bool,
    /// Black may still castle on the king's side (`k`).
    pub black_king_side: bool,
    /// Black may still castle on the queen's side (`q`).
    pub black_queen_side: bool,
    /// The square on which a pawn may be taken in passing, if there is one.
    pub en_passant: Option<u8>,
    /// Half-moves since the last capture or pawn move.
    pub halfmove_clock: u32,
    /// Number of the move to be played, counted from 1.
    pub move_number: u32,
}

/// The facts that a plain record states.
pub open spec fn facts_of(b: Seq<u8>) -> FenFacts {
    let n = b.len() as int;
    FenFacts {
        white_king_side: count_in_field(b, n, 2, UPPER_K) > 0,
        white_queen_side: count_in_field(b, n, 2, UPPER_Q) > 0,
        black_king_side: count_in_field(b, n, 2, LOWER_K) > 0,
        black_queen_side: count_in_field(b, n, 2, LOWER_Q) > 0,
        en_passant: en_passant_square(field_code(b, n, 3)),
        halfmove_clock: field_value(b, n, 4) as u32,
        move_number: field_value(b, n, 5) as u32,
    }
}

/// Whether the first space of `text` stands at position `i`.
pub open spec fn is_first_space(text: Seq<char>, i: int) -> bool {
    &&& 0 <= i < text.len()
    &&& text[i] == ' '
    &&& forall|j: int| 0 <= j < i ==> text[j] != ' '
}

/// Whether a record says that White is to move: whether its second field,
/// the one after the first space, begins with `w`.
pub open spec fn white_to_move(text: Seq<char>) -> bool {
    exists|i: int| #[trigger] is_first_space(text, i) && i + 1 < text.len() && text[i + 1] == 'w'
}

/// A text has at most one first space, so where it stands decides whose
/// move the record reports.
pub proof fn lemma_white_to_move_at(text: Seq<char>, i: int)
    requires
        is_first_space(text, i),
        i + 1 < text.len(),
    ensures
        white_to_move(text) == (text[i + 1] == 'w'),
{
    if white_to_move(text) {
        let k = choose|k: int| #[trigger]
            is_first_space(text, k) && k + 1 < text.len() && text[k + 1] == 'w';
        if k < i {
            assert(text[k] != ' ');
        } else if i < k {
            assert(text[i] != ' ');
        }
    }
}

/// The bytes of an ASCII text.
pub open spec fn ascii_bytes(text: Seq<char>) -> Seq<u8> {
    Seq::new(text.len(), |i: int| text[i] as u8)
}

/// Whether a text is a plain FEN record.
pub open spec fn is_plain_fen(text: Seq<char>) -> bool {
    vstd::utf8::is_ascii_chars(text) && plain_bytes(ascii_bytes(text))
}

/// The facts that a text states, when it is a plain FEN record.
pub open spec fn fen_facts(text: Seq<char>) -> Option<FenFacts> {
    if is_plain_fen(text) {
        Some(facts_of(ascii_bytes(text)))
    } else {
        None
    }
}

/// Ten to the power `n`, for the lengths of a counter.
pub open spec fn pow10(n: nat) -> nat {
    if n == 0 {
        1
    } else if n == 1 {
        10
    } else if n == 2 {
        100
    } else if n == 3 {
        1000
    } else if n == 4 {
        10000
    } else {
        100000
    }
}

/// Whether the bytes are printable ASCII in non-empty fields separated by
/// single spaces.
pub open spec fn well_separated(b: Seq<u8>) -> bool {
    let n = b.len() as int;
    &&& n > 0
    &&& forall|i: int| 0 <= i < n ==> 32 <= #[trigger] b[i] <= 126
    &&& b[0] != SPACE
    &&& b[n - 1] != SPACE
    &&& forall|i: int| 0 < i < n ==> !(b[i - 1] == SPACE && #[trigger] b[i] == SPACE)
}

/// Decides whether the bytes are well separated.
fn scan_separation(b: &[u8]) -> (r: bool)
    ensures
        r == well_separated(b@),
{
    let n = b.len();
    if n == 0 {
        return false;
    }
    let mut printable = true;
    let mut single = true;
    let mut i: usize = 0;
    while i < n
        invariant
            n == b@.len(),
            0 <= i <= n,
            printable == (forall|j: int| 0 <= j < i ==> 32 <= #[trigger] b@[j] <= 126),
            single == (forall|j: int|
                0 < j < i ==> !(b@[j - 1] == SPACE && #[trigger] b@[j] == SPACE)),
        decreases n - i,
    {
        let c = b[i];
        if c < 32 || c > 126 {
            printable = false;
        }
        if i > 0 && c == SPACE && b[i - 1] == SPACE {
            single = false;
        }
        i = i + 1;
    }
    printable && single && b[0] != SPACE && b[n - 1] != SPACE
}

/// Counts the separators.
fn scan_spaces(b: &[u8]) -> (r: usize)
    ensures
        r == spaces_before(b@, b@.len() as int),
{
    let n = b.len();
    let mut spaces: usize = 0;
    let mut i: usize = 0;
    while i < n
        invariant
            n == b@.len(),
            0 <= i <= n,
            spaces == spaces_before(b@, i as int),
            spaces <= i,
        decreases n - i,
    {
        if b[i] == SPACE {
            spaces = spaces + 1;
        }
        i = i + 1;
    }
    spaces
}

/// Counts the bytes equal to `c` in field `field`.
fn scan_count(b: &[u8], field: usize, c: u8) -> (r: usize)
    ensures
        r == count_in_field(b@, b@.len() as int, field as nat, c),
{
    let n = b.len();
    let mut spaces: usize = 0;
    let mut count: usize = 0;
    let mut i: usize = 0;
    while i < n
        invariant
            n == b@.len(),
            0 <= i <= n,
            spaces == spaces_before(b@, i as int),
            spaces <= i,
            count == count_in_field(b@, i as int, field as nat, c),
            count <= i,
        decreases n - i,
    {
        if b[i] == SPACE {
            spaces = spaces + 1;
        } else if spaces == field && b[i] == c {
            count = count + 1;
        }
        i = i + 1;
    }
    count
}

/// Measures field `field`.
fn scan_len(b: &[u8], field: usize) -> (r: usize)
    ensures
        r == field_len(b@, b@.len() as int, field as nat),
{
    let n = b.len();
    let mut spaces: usize = 0;
    let mut len: usize = 0;
    let mut i: usize = 0;
    while i < n
        invariant
            n == b@.len(),
            0 <= i <= n,
            spaces == spaces_before(b@, i as int),
            spaces <= i,
            len == field_len(b@, i as int, field as nat),
            len <= i,
        decreases n - i,
    {
        if b[i] == SPACE {
            spaces = spaces + 1;
        } else if spaces == field {
            len = len + 1;
        }
        i = i + 1;
    }
    len
}

/// Decides whether the placement field is made of eight full ranks.
fn scan_placement(b: &[u8]) -> (r: bool)
    ensures
        r == placement_sound(b@),
{
    let n = b.len();
    let mut spaces: usize = 0;
    let mut fill: usize = 0;
    let mut bytes = true;
    let mut full = true;
    let mut i: usize = 0;
    while i < n
        invariant
            n == b@.len(),
            0 <= i <= n,
            spaces == spaces_before(b@, i as int),
            spaces <= i,
            fill <= 9,
            rank_fill(b@, i as int) <= 8 ==> fill == rank_fill(b@, i as int),
            rank_fill(b@, i as int) > 8 ==> fill == 9,
            bytes == (forall|j: int|
                0 <= j < i && #[trigger] in_field(b@, j, 0) ==> b@[j] == SLASH || squares_of(b@[j])
                    > 0),
            full == (forall|j: int|
                0 <= j < i && #[trigger] rank_ends_at(b@, j) ==> rank_fill(b@, j) == 8),
        decreases n - i,
    {
        let c = b[i];
        assert(in_field(b@, i as int, 0) == (c != SPACE && spaces == 0));
        assert(rank_ends_at(b@, i as int) == (spaces == 0 && (c == SLASH || c == SPACE)));
        let squares: usize = if 49 <= c && c <= 56 {
            (c - 48) as usize
        } else if c == 80 || c == 78 || c == 66 || c == 82 || c == UPPER_Q || c == UPPER_K || c
            == 112 || c == 110 || c == 98 || c == 114 || c == LOWER_Q || c == LOWER_K {
            1
        } else {
            0
        };
        assert(squares == squares_of(c));
        if spaces == 0 && c != SPACE && c != SLASH && squares == 0 {
            bytes = false;
        }
        if spaces == 0 && (c == SLASH || c == SPACE) && fill != 8 {
            full = false;
        }
        if c == SPACE {
            spaces = spaces + 1;
        }
        if c == SLASH || c == SPACE {
            fill = 0;
        } else if fill + squares > 8 {
            fill = 9;
        } else {
            fill = fill + squares;
        }
        i = i + 1;
    }
    bytes && full && scan_count(b, 0, SLASH) == 7
}

/// Decides whether the castling field holds castling letters only.
fn scan_castling(b: &[u8]) -> (r: bool)
    ensures
        r == (forall|j: int|
            0 <= j < b@.len() && #[trigger] in_field(b@, j, 2) ==> is_castling_letter(b@[j])),
{
    let n = b.len();
    let mut spaces: usize = 0;
    let mut castling = true;
    let mut i: usize = 0;
    while i < n
        invariant
            n == b@.len(),
            0 <= i <= n,
            spaces == spaces_before(b@, i as int),
            spaces <= i,
            castling == (forall|j: int|
                0 <= j < i && #[trigger] in_field(b@, j, 2) ==> is_castling_letter(b@[j])),
        decreases n - i,
    {
        let c = b[i];
        assert(in_field(b@, i as int, 2) == (c != SPACE && spaces == 2));
        if c == SPACE {
            spaces = spaces + 1;
        } else if spaces == 2 && !(c == UPPER_K || c == UPPER_Q || c == LOWER_K || c == LOWER_Q
            || c == DASH) {
            castling = false;
        }
        i = i + 1;
    }
    castling
}

/// Reads field `field` as a number of at most five digits: gives the
/// number when the field has at most five bytes, all of them digits.
fn scan_number(b: &[u8], field: usize) -> (r: Option<u32>)
    ensures
        r is Some <==> field_len(b@, b@.len() as int, field as nat) <= 5 && (forall|j: int|
            0 <= j < b@.len() && #[trigger] in_field(b@, j, field as nat) ==> is_digit(b@[j])),
        r matches Some(v) ==> v == field_value(b@, b@.len() as int, field as nat),
{
    let n = b.len();
    let mut spaces: usize = 0;
    let mut digits = true;
    let mut len: usize = 0;
    let mut value: u32 = 0;
    let mut i: usize = 0;
    while i < n
        invariant
            n == b@.len(),
            0 <= i <= n,
            spaces == spaces_before(b@, i as int),
            spaces <= i,
            digits == (forall|j: int|
                0 <= j < i && #[trigger] in_field(b@, j, field as nat) ==> is_digit(b@[j])),
            len == field_len(b@, i as int, field as nat),
            len <= i,
            len <= 5 ==> value == field_value(b@, i as int, field as nat) && value < pow10(
                len as nat,
            ),
        decreases n - i,
    {
        let c = b[i];
        assert(in_field(b@, i as int, field as nat) == (c != SPACE && spaces == field));
        if c == SPACE {
            spaces = spaces + 1;
        } else if spaces == field {
            let digit = 48 <= c && c <= 57;
            if !digit {
                digits = false;
            }
            if len < 5 {
                let d: u32 = if digit {
                    (c - 48) as u32
                } else {
                    0
                };
                value = value * 10 + d;
            }
            len = len + 1;
        }
        i = i + 1;
    }
    if digits && len <= 5 {
        Some(value)
    } else {
        None
    }
}

/// Reads field `field` as a code of at most two bytes: gives the code when
/// the field has at most two bytes.
fn scan_code(b: &[u8], field: usize) -> (r: Option<u32>)
    ensures
        r is Some <==> field_len(b@, b@.len() as int, field as nat) <= 2,
        r matches Some(v) ==> v == field_code(b@, b@.len() as int, field as nat),
{
    let n = b.len();
    let mut spaces: usize = 0;
    let mut len: usize = 0;
    let mut code: u32 = 0;
    let mut i: usize = 0;
    while i < n
        invariant
            n == b@.len(),
            0 <= i <= n,
            spaces == spaces_before(b@, i as int),
            spaces <= i,
            len == field_len(b@, i as int, field as nat),
            len <= i,
            len <= 2 ==> code == field_code(b@, i as int, field as nat) && (len == 0 ==> code
                == 0) && (len == 1 ==> code < 256) && code < 65536,
        decreases n - i,
    {
        let c = b[i];
        if c == SPACE {
            spaces = spaces + 1;
        } else if spaces == field {
            if len < 2 {
                code = code * 256 + c as u32;
            }
            len = len + 1;
        }
        i = i + 1;
    }
    if len <= 2 {
        Some(code)
    } else {
        None
    }
}

/// Reads a record: decides whether the bytes form a plain FEN record and,
/// if they do, gives the facts it states.
pub fn scan_bytes(b: &[u8]) -> (r: Option<FenFacts>)
    ensures
        r is Some <==> plain_bytes(b@),
        r matches Some(facts) ==> facts == facts_of(b@),
{
    if !scan_separation(b) || scan_spaces(b) != 5 {
        return None;
    }
    if !scan_placement(b) {
        return None;
    }
    if scan_count(b, 0, UPPER_K) != 1 || scan_count(b, 0, LOWER_K) != 1 || !scan_castling(b) {
        return None;
    }
    let code = match scan_code(b, 3) {
        Some(code) => code,
        None => {
            return None;
        },
    };
    let en_passant = if code == DASH as u32 {
        None
    } else {
        let file = code / 256;
        let rank = code % 256;
        if !(97 <= file && file <= 104 && 49 <= rank && rank <= 56) {
            return None;
        }
        Some(((rank - 49) * 8 + (file - 97)) as u8)
    };
    let halfmove_clock = match scan_number(b, 4) {
        Some(v) => v,
        None => {
            return None;
        },
    };
    let move_number = match scan_number(b, 5) {
        Some(v) => v,
        None => {
            return None;
        },
    };
    if move_number < 1 || move_number > 32768 {
        return None;
    }
    Some(
        FenFacts {
            white_king_side: scan_count(b, 2, UPPER_K) > 0,
            white_queen_side: scan_count(b, 2, UPPER_Q) > 0,
            black_king_side: scan_count(b, 2, LOWER_K) > 0,
            black_queen_side: scan_count(b, 2, LOWER_Q) > 0,
            en_passant,
            halfmove_clock,
            move_number,
        },
    )
}

/// Reads a text: decides whether it is a plain FEN record and, if it is,
/// gives the facts it states.
pub fn scan_fen(text: &str) -> (r: Option<FenFacts>)
    ensures
        r == fen_facts(text@),
{
    if !text.is_ascii() {
        return None;
    }
    let bytes = text.as_bytes();
    proof {
        vstd::string::is_ascii_spec_bytes(text);
        assert(bytes@ =~= ascii_bytes(text@));
    }
    scan_bytes(bytes)
}

/// Decides whether the bytes form a plain FEN record.
pub fn check_plain_bytes(b: &[u8]) -> (r: bool)
    ensures
        r == plain_bytes(b@),
{
    scan_bytes(b).is_some()
}

/// Decides whether a text is a plain FEN record.
pub fn check_plain_fen(text: &str) -> (r: bool)
    ensures
        r == is_plain_fen(text@),
{
    scan_fen(text).is_some()
}

} // verus!
