//! Logical board squares, independent of pixels and of orientation.

use vstd::prelude::*;

verus! {

/// A square of the board: `file` 0 is the a-file, `rank` 0 is the first rank,
/// so `(0, 0)` is a1 whichever side is drawn at the bottom.
#[derive(Clone, Copy, Debug, PartialEq, Eq, Structural)]
pub struct Square {
    pub file: u8,
    pub rank: u8,
}

impl Square {
    /// Both coordinates lie on the board.
    pub open spec fn wf(self) -> bool {
        self.file < 8 && self.rank < 8
    }

    /// The square seen from the other side of the board: file and rank
    /// are both mirrored.
    pub open spec fn flipped(self) -> Square {
        Square { file: (7 - self.file) as u8, rank: (7 - self.rank) as u8 }
    }

    /// The square's number, rank by rank from a1 (0) to h8 (63).
    pub open spec fn index(self) -> int {
        self.rank * 8 + self.file
    }

    /// The square at `(file, rank)`, or nothing when either lies off the board.
    pub fn new(file: u8, rank: u8) -> (r: Option<Square>)
        ensures
            r == (if file < 8 && rank < 8 {
                Some(Square { file, rank })
            } else {
                None
            }),
    {
        if file < 8 && rank < 8 {
            Some(Square { file, rank })
        } else {
            None
        }
    }

    /// Mirrors file and rank.
    pub fn flip(self) -> (r: Square)
        requires
            self.wf(),
        ensures
            r == self.flipped(),
            r.wf(),
    {
        Square { file: 7 - self.file, rank: 7 - self.rank }
    }

    /// The square's number, rank by rank from a1 (0) to h8 (63).
    pub fn to_index(self) -> (r: u8)
        requires
            self.wf(),
        ensures
            r == self.index(),
            r < 64,
    {
        self.rank * 8 + self.file
    }
}

/// Mirroring a square twice gives the square back.
pub proof fn lemma_flip_involution(s: Square)
    requires
        s.wf(),
    ensures
        s.flipped().wf(),
        s.flipped().flipped() == s,
{
}

} // verus!
