//! Conversion of board coordinates to the engine's file and rank numbers.

use vstd::prelude::*;

verus! {

/// Conversions from board coordinates to the engine's numbers.
pub struct Utils {}

/// `input` brought into the range 0 to 7.
pub open spec fn clamp_coord(input: int) -> int {
    if input < 0 {
        0
    } else if input > 7 {
        7
    } else {
        input
    }
}

impl Utils {
    /// The engine's number of the file with coordinate `input`: 0 for the
    /// a-file to 7 for the h-file. A coordinate off the board is taken to
    /// the nearest file.
    pub fn coord_file_to_pleco_file(input: i32) -> (file: u8)
        ensures
            file == clamp_coord(input as int),
            file < 8,
    {
        if input < 0 {
            0
        } else if input > 7 {
            7
        } else {
            input as u8
        }
    }

    /// The engine's number of the rank with coordinate `input`: 0 for the
    /// first rank to 7 for the eighth. A coordinate off the board is taken
    /// to the nearest rank.
    pub fn coord_rank_to_pleco_rank(input: i32) -> (rank: u8)
        ensures
            rank == clamp_coord(input as int),
            rank < 8,
    {
        if input < 0 {
            0
        } else if input > 7 {
            7
        } else {
            input as u8
        }
    }
}

} // verus!
