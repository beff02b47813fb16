//! The vector images of the twelve pieces.

use vstd::prelude::*;
use crate::position::Piece;

verus! {

/// Where the image of each piece is found, as a path below the
/// application's directory.
#[derive(Clone, Copy, Debug)]
pub struct PiecesVectors {
    pub svg_wp: &'static str,
    pub svg_wn: &'static str,
    pub svg_wb: &'static str,
    pub svg_wr: &'static str,
    pub svg_wq: &'static str,
    pub svg_wk: &'static str,
    pub svg_bp: &'static str,
    pub svg_bn: &'static str,
    pub svg_bb: &'static str,
    pub svg_br: &'static str,
    pub svg_bq: &'static str,
    pub svg_bk: &'static str,
}

impl PiecesVectors {
    /// The path recorded for `piece`.
    pub open spec fn path_of(&self, piece: Piece) -> &'static str {
        match piece {
            Piece::WhitePawn => self.svg_wp,
            Piece::WhiteKnight => self.svg_wn,
            Piece::WhiteBishop => self.svg_wb,
            Piece::WhiteRook => self.svg_wr,
            Piece::WhiteQueen => self.svg_wq,
            Piece::WhiteKing => self.svg_wk,
            Piece::BlackPawn => self.svg_bp,
            Piece::BlackKnight => self.svg_bn,
            Piece::BlackBishop => self.svg_bb,
            Piece::BlackRook => self.svg_br,
            Piece::BlackQueen => self.svg_bq,
            Piece::BlackKing => self.svg_bk,
        }
    }

    /// Whether these are the standard images: for each piece the file
    /// that is named after it, `l` for White's and `d` for Black's.
    pub open spec fn is_standard(&self) -> bool {
        &&& self.svg_wp@ == "resources/images/chess_vectors/Chess_plt45.svg"@
        &&& self.svg_wn@ == "resources/images/chess_vectors/Chess_nlt45.svg"@
        &&& self.svg_wb@ == "resources/images/chess_vectors/Chess_blt45.svg"@
        &&& self.svg_wr@ == "resources/images/chess_vectors/Chess_rlt45.svg"@
        &&& self.svg_wq@ == "resources/images/chess_vectors/Chess_qlt45.svg"@
        &&& self.svg_wk@ == "resources/images/chess_vectors/Chess_klt45.svg"@
        &&& self.svg_bp@ == "resources/images/chess_vectors/Chess_pdt45.svg"@
        &&& self.svg_bn@ == "resources/images/chess_vectors/Chess_ndt45.svg"@
        &&& self.svg_bb@ == "resources/images/chess_vectors/Chess_bdt45.svg"@
        &&& self.svg_br@ == "resources/images/chess_vectors/Chess_rdt45.svg"@
        &&& self.svg_bq@ == "resources/images/chess_vectors/Chess_qdt45.svg"@
        &&& self.svg_bk@ == "resources/images/chess_vectors/Chess_kdt45.svg"@
    }

    /// The standard set of images.
    pub fn new() -> (v: PiecesVectors)
        ensures
            v.is_standard(),
    {
        PiecesVectors {
            svg_wp: "resources/images/chess_vectors/Chess_plt45.svg",
            svg_wn: "resources/images/chess_vectors/Chess_nlt45.svg",
            svg_wb: "resources/images/chess_vectors/Chess_blt45.svg",
            svg_wr: "resources/images/chess_vectors/Chess_rlt45.svg",
            svg_wq: "resources/images/chess_vectors/Chess_qlt45.svg",
            svg_wk: "resources/images/chess_vectors/Chess_klt45.svg",
            svg_bp: "resources/images/chess_vectors/Chess_pdt45.svg",
            svg_bn: "resources/images/chess_vectors/Chess_ndt45.svg",
            svg_bb: "resources/images/chess_vectors/Chess_bdt45.svg",
            svg_br: "resources/images/chess_vectors/Chess_rdt45.svg",
            svg_bq: "resources/images/chess_vectors/Chess_qdt45.svg",
            svg_bk: "resources/images/chess_vectors/Chess_kdt45.svg",
        }
    }

    /// The path of the image that is drawn for `piece`.
    pub fn image(&self, piece: Piece) -> (path: &'static str)
        ensures
            path == self.path_of(piece),
    {
        match piece {
            Piece::WhitePawn => self.svg_wp,
            Piece::WhiteKnight => self.svg_wn,
            Piece::WhiteBishop => self.svg_wb,
            Piece::WhiteRook => self.svg_wr,
            Piece::WhiteQueen => self.svg_wq,
            Piece::WhiteKing => self.svg_wk,
            Piece::BlackPawn => self.svg_bp,
            Piece::BlackKnight => self.svg_bn,
            Piece::BlackBishop => self.svg_bb,
            Piece::BlackRook => self.svg_br,
            Piece::BlackQueen => self.svg_bq,
            Piece::BlackKing => self.svg_bk,
        }
    }
}

} // verus!
