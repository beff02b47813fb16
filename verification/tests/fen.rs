use chessboard::fen::{check_plain_bytes, check_plain_fen, scan_bytes, scan_fen, FenFacts};

const START: &str = "rnbqkbnr/pppppppp/8/8/8/8/PPPPPPPP/RNBQKBNR w KQkq - 0 1";

#[test]
fn the_standard_record_is_plain() {
    assert!(check_plain_fen(START));
    assert!(check_plain_bytes(START.as_bytes()));
}

#[test]
fn records_of_later_positions_are_plain() {
    assert!(check_plain_fen("8/2p5/3p4/KP5r/1R3p1k/8/4P1P1/8 w - - 0 11"));
    assert!(check_plain_fen("4rrk1/pp1n3p/3q2pQ/2p1pb2/2PP4/2P3N1/P2B2PP/4RRK1 b - - 7 19"));
    assert!(check_plain_fen("rnbqkbnr/pppppppp/8/8/4P3/8/PPPP1PPP/RNBQKBNR b KQkq e3 0 1"));
    assert!(check_plain_fen("8/R7/2q5/8/6k1/8/1P5p/K6R w - - 0 124"));
}

#[test]
fn the_empty_text_is_not_plain() {
    assert!(!check_plain_fen(""));
    assert!(!check_plain_bytes(&[]));
}

#[test]
fn the_number_of_fields_must_be_six() {
    assert!(!check_plain_fen("rnbqkbnr/pppppppp/8/8/8/8/PPPPPPPP/RNBQKBNR w KQkq - 0"));
    assert!(!check_plain_fen("rnbqkbnr/pppppppp/8/8/8/8/PPPPPPPP/RNBQKBNR w KQkq - 0 1 1"));
    assert!(!check_plain_fen("rnbqkbnr/pppppppp/8/8/8/8/PPPPPPPP/RNBQKBNR"));
}

#[test]
fn fields_are_separated_by_single_spaces() {
    assert!(!check_plain_fen("rnbqkbnr/pppppppp/8/8/8/8/PPPPPPPP/RNBQKBNR  w KQkq - 0 1"));
    assert!(!check_plain_fen(" rnbqkbnr/pppppppp/8/8/8/8/PPPPPPPP/RNBQKBNR w KQkq - 0 1"));
    assert!(!check_plain_fen("rnbqkbnr/pppppppp/8/8/8/8/PPPPPPPP/RNBQKBNR w KQkq - 0 1 "));
    assert!(!check_plain_fen("rnbqkbnr/pppppppp/8/8/8/8/PPPPPPPP/RNBQKBNR\tw KQkq - 0 1"));
    assert!(!check_plain_fen("rnbqkbnr/pppppppp/8/8/8/8/PPPPPPPP/RNBQKBNR w KQkq - 0 1\n"));
}

#[test]
fn only_printable_ascii_is_plain() {
    assert!(!check_plain_fen("rnbqkbnr/pppppppp/8/8/8/8/PPPPPPPP/RNBQKBNR w KQkq \u{2013} 0 1"));
    assert!(!check_plain_fen("rnbqkbnr/pppppppp/8/8/8/8/PPPPPPPP/RNBQKBNR w KQkq -\u{7f} 0 1"));
    assert!(!check_plain_fen("rnbqkbnr/pppppppp/8/8/8/8/PPPPPPPP/RNBQKBNR\u{a0}w KQkq - 0 1"));
}

#[test]
fn each_side_needs_exactly_one_king() {
    assert!(!check_plain_fen("rnbq1bnr/pppppppp/8/8/8/8/PPPPPPPP/RNBQKBNR w KQkq - 0 1"));
    assert!(!check_plain_fen("rnbqkbnr/pppppppp/8/8/8/8/PPPPPPPP/RNBQ1BNR w KQkq - 0 1"));
    assert!(!check_plain_fen("rnbqkbnr/pppppppp/8/8/8/8/PPPPPPPP/RNBKKBNR w KQkq - 0 1"));
    assert!(!check_plain_fen("rnbkkbnr/pppppppp/8/8/8/8/PPPPPPPP/RNBQKBNR w KQkq - 0 1"));
    // The kings of the castling field do not count.
    assert!(!check_plain_fen("rnbq1bnr/pppppppp/8/8/8/8/PPPPPPPP/RNBQ1BNR w KQkq - 0 1"));
}

#[test]
fn the_castling_field_holds_castling_letters_only() {
    assert!(check_plain_fen("4k3/8/8/8/8/8/8/4K3 w - - 0 1"));
    assert!(check_plain_fen("4k3/8/8/8/8/8/8/4K3 w Kq - 0 1"));
    assert!(!check_plain_fen("4k3/8/8/8/8/8/8/4K3 w KQkqx - 0 1"));
    assert!(!check_plain_fen("4k3/8/8/8/8/8/8/4K3 w AHah - 0 1"));
    assert!(!check_plain_fen("4k3/8/8/8/8/8/8/4K3 w 0 - 0 1"));
}

#[test]
fn the_move_number_runs_from_1_to_32768() {
    assert!(!check_plain_fen("4k3/8/8/8/8/8/8/4K3 w - - 0 0"));
    assert!(check_plain_fen("4k3/8/8/8/8/8/8/4K3 w - - 0 1"));
    assert!(check_plain_fen("4k3/8/8/8/8/8/8/4K3 w - - 0 00001"));
    assert!(check_plain_fen("4k3/8/8/8/8/8/8/4K3 w - - 0 32768"));
    assert!(!check_plain_fen("4k3/8/8/8/8/8/8/4K3 w - - 0 32769"));
    assert!(!check_plain_fen("4k3/8/8/8/8/8/8/4K3 w - - 0 99999"));
    assert!(!check_plain_fen("4k3/8/8/8/8/8/8/4K3 w - - 0 000001"));
    assert!(!check_plain_fen("4k3/8/8/8/8/8/8/4K3 w - - 0 -"));
    assert!(!check_plain_fen("4k3/8/8/8/8/8/8/4K3 w - - 0 +1"));
    assert!(!check_plain_fen("4k3/8/8/8/8/8/8/4K3 w - - 0 1a"));
}

#[test]
fn the_en_passant_field_is_a_dash_or_a_square() {
    assert!(check_plain_fen("4k3/8/8/8/8/8/8/4K3 w - - 0 1"));
    assert!(check_plain_fen("4k3/8/8/8/8/8/8/4K3 w - a1 0 1"));
    assert!(check_plain_fen("4k3/8/8/8/8/8/8/4K3 w - h8 0 1"));
    assert!(!check_plain_fen("4k3/8/8/8/8/8/8/4K3 w - e 0 1"));
    assert!(!check_plain_fen("4k3/8/8/8/8/8/8/4K3 w - -- 0 1"));
    assert!(!check_plain_fen("4k3/8/8/8/8/8/8/4K3 w - -3 0 1"));
    assert!(!check_plain_fen("4k3/8/8/8/8/8/8/4K3 w - i3 0 1"));
    assert!(!check_plain_fen("4k3/8/8/8/8/8/8/4K3 w - e9 0 1"));
    assert!(!check_plain_fen("4k3/8/8/8/8/8/8/4K3 w - e0 0 1"));
    assert!(!check_plain_fen("4k3/8/8/8/8/8/8/4K3 w - E3 0 1"));
    assert!(!check_plain_fen("4k3/8/8/8/8/8/8/4K3 w - e3x 0 1"));
}

#[test]
fn the_clock_is_a_number_of_at_most_five_digits() {
    assert!(check_plain_fen("4k3/8/8/8/8/8/8/4K3 w - - 0 1"));
    assert!(check_plain_fen("4k3/8/8/8/8/8/8/4K3 w - - 99999 1"));
    assert!(!check_plain_fen("4k3/8/8/8/8/8/8/4K3 w - - 100000 1"));
    assert!(!check_plain_fen("4k3/8/8/8/8/8/8/4K3 w - - - 1"));
    assert!(!check_plain_fen("4k3/8/8/8/8/8/8/4K3 w - - -1 1"));
    assert!(!check_plain_fen("4k3/8/8/8/8/8/8/4K3 w - - 1.5 1"));
}

#[test]
fn facts_of_the_standard_record() {
    let facts = scan_fen(START).unwrap();
    assert_eq!(
        facts,
        FenFacts {
            white_king_side: true,
            white_queen_side: true,
            black_king_side: true,
            black_queen_side: true,
            en_passant: None,
            halfmove_clock: 0,
            move_number: 1,
        }
    );
    assert_eq!(scan_bytes(START.as_bytes()), Some(facts));
}

#[test]
fn facts_of_other_records() {
    let facts = scan_fen("rnbqkbnr/pppppppp/8/8/4P3/8/PPPP1PPP/RNBQKBNR b Kq e3 17 124").unwrap();
    assert_eq!(
        facts,
        FenFacts {
            white_king_side: true,
            white_queen_side: false,
            black_king_side: false,
            black_queen_side: true,
            en_passant: Some(20),
            halfmove_clock: 17,
            move_number: 124,
        }
    );
    let facts = scan_fen("4k3/8/8/8/8/8/8/4K3 w - h6 00042 32768").unwrap();
    assert_eq!(facts.en_passant, Some(47));
    assert_eq!(facts.halfmove_clock, 42);
    assert_eq!(facts.move_number, 32768);
    assert!(!facts.white_king_side && !facts.black_queen_side);
    assert_eq!(scan_fen("4k3/8/8/8/8/8/8/4K3 w - a1 0 1").unwrap().en_passant, Some(0));
    assert_eq!(scan_fen("4k3/8/8/8/8/8/8/4K3 w - h8 0 1").unwrap().en_passant, Some(63));
    assert_eq!(scan_fen("not a record"), None);
    assert_eq!(scan_bytes(&[0xff, 0x20]), None);
}

#[test]
fn the_placement_field_has_eight_ranks_of_eight_squares() {
    assert!(check_plain_fen("4k3/8/8/8/8/8/8/4K3 w - - 0 1"));
    assert!(check_plain_fen("k7/1p6/2n5/3b4/4R3/5Q2/6P1/7K w - - 0 1"));
    assert!(check_plain_fen("k1n1b1r1/1p1p1p1p/11111111/8/8/8/8/7K w - - 0 1"));
    // Seven and nine ranks.
    assert!(!check_plain_fen("4k3/8/8/8/8/8/4K3 w - - 0 1"));
    assert!(!check_plain_fen("4k3/8/8/8/8/8/8/8/4K3 w - - 0 1"));
    // Ranks that are too short or too long.
    assert!(!check_plain_fen("4k2/8/8/8/8/8/8/4K3 w - - 0 1"));
    assert!(!check_plain_fen("4k4/8/8/8/8/8/8/4K3 w - - 0 1"));
    assert!(!check_plain_fen("4k3/8/8/8/8/8/8/4K4 w - - 0 1"));
    assert!(!check_plain_fen("4k3/8/8/8/8/8/8/4K2 w - - 0 1"));
    assert!(!check_plain_fen("4k3p/8/8/8/8/8/8/4K3 w - - 0 1"));
    assert!(!check_plain_fen("4k3/8/8/44p/8/8/8/4K3 w - - 0 1"));
    // An empty rank.
    assert!(!check_plain_fen("4k3//8/8/8/8/8/4K3 w - - 0 1"));
    assert!(!check_plain_fen("/4k3/8/8/8/8/8/4K3 w - - 0 1"));
    assert!(!check_plain_fen("4k3/8/8/8/8/8/4K3/ w - - 0 1"));
    // Bytes that stand for no squares.
    assert!(!check_plain_fen("4k3/8/8/8/8/8/8/4K30 w - - 0 1"));
    assert!(!check_plain_fen("4k3/9/8/8/8/8/8/4K3 w - - 0 1"));
    assert!(!check_plain_fen("4k3/8/8/8/8/8/7x/4K3 w - - 0 1"));
    assert!(!check_plain_fen("4k3/8/8/8/8/8/7-/4K3 w - - 0 1"));
    // Slashes elsewhere do not count as ranks.
    assert!(!check_plain_fen("4k3/8/8/8/8/8/8/4K3 w - - 0/ 1"));
}
