//! Conversion between pointer positions and board squares.
//!
//! A board of size `s` pixels has cells of `s / 8` pixels, and the grid is
//! drawn half a cell in from the widget's top-left corner. A coordinate of
//! `x` pixels therefore lies in column `floor((x - s/16) / (s/8))`. Counted in
//! units of 1/160 pixel this is `floor((p - 10 s) / (20 s))` with `p = 160 x`:
//! the same number, computed without rounding.

use vstd::prelude::*;
use crate::square::Square;
use crate::utils::{Utils, clamp_coord};

verus! {

/// Sub-pixel units in one pixel.
pub const UNITS_PER_PIXEL: i64 = 160;

/// A position relative to the board's top-left corner, in sub-pixel units.
#[derive(Clone, Copy, Debug, PartialEq, Eq, Structural)]
pub struct Point {
    pub x: i64,
    pub y: i64,
}

impl Point {
    /// The point at whole-pixel coordinates `(x, y)`.
    pub fn from_pixels(x: i32, y: i32) -> (p: Point)
        ensures
            p.x == x * UNITS_PER_PIXEL,
            p.y == y * UNITS_PER_PIXEL,
    {
        let px: i64 = x as i64;
        let py: i64 = y as i64;
        Point { x: px * UNITS_PER_PIXEL, y: py * UNITS_PER_PIXEL }
    }
}

/// Side of one cell of a board of `size` pixels, in units.
#[verifier::inline]
pub open spec fn cell_extent(size: int) -> int {
    20 * size
}

/// Distance from the widget's edge to the first grid line: half a cell.
#[verifier::inline]
pub open spec fn grid_origin(size: int) -> int {
    10 * size
}

/// Number of the grid column (or row) that the coordinate `p` falls in,
/// counted from the left (or the top); negative or above 7 off the grid.
#[verifier::inline]
pub open spec fn grid_index(p: int, size: int) -> int {
    (p - grid_origin(size)) / cell_extent(size)
}

/// The square drawn at column `col`, row `row` of the grid.
pub open spec fn square_on_grid(col: int, row: int, reversed: bool) -> Square {
    if reversed {
        Square { file: (7 - col) as u8, rank: row as u8 }
    } else {
        Square { file: col as u8, rank: (7 - row) as u8 }
    }
}

/// The square under the position `(x, y)`, if it lies on the grid.
pub open spec fn spec_pixel_to_square(x: int, y: int, size: int, reversed: bool) -> Option<Square> {
    let col = grid_index(x, size);
    let row = grid_index(y, size);
    if 0 <= col <= 7 && 0 <= row <= 7 {
        Some(square_on_grid(col, row, reversed))
    } else {
        None
    }
}

/// Grid column at which `square` is drawn.
pub open spec fn column_of(square: Square, reversed: bool) -> int {
    if reversed {
        7 - square.file
    } else {
        square.file as int
    }
}

/// Grid row at which `square` is drawn.
pub open spec fn row_of(square: Square, reversed: bool) -> int {
    if reversed {
        square.rank as int
    } else {
        7 - square.rank
    }
}

/// Coordinate of the grid line that starts column (or row) `k`.
#[verifier::inline]
pub open spec fn grid_line(k: int, size: int) -> int {
    grid_origin(size) + k * cell_extent(size)
}

/// Top-left corner of the cell in which `square` is drawn.
pub open spec fn spec_square_to_pixel(square: Square, size: int, reversed: bool) -> Point {
    Point {
        x: grid_line(column_of(square, reversed), size) as i64,
        y: grid_line(row_of(square, reversed), size) as i64,
    }
}

/// A coordinate between two neighbouring grid lines has the index of the
/// first of them.
pub proof fn lemma_grid_index_within(p: int, size: int, k: int)
    requires
        size > 0,
        grid_line(k, size) <= p < grid_line(k + 1, size),
    ensures
        grid_index(p, size) == k,
{
    let d = cell_extent(size);
    let n = p - grid_origin(size);
    assert(k * d <= n < (k + 1) * d) by (nonlinear_arith)
        requires
            n == p - 10 * size,
            d == 20 * size,
            10 * size + k * (20 * size) <= p < 10 * size + (k + 1) * (20 * size),
    ;
    assert(n / d == k) by (nonlinear_arith)
        requires
            d > 0,
            k * d <= n < (k + 1) * d,
    ;
}

/// Every coordinate lies between the grid line of its index and the next
/// one.
pub proof fn lemma_grid_index_bounds(p: int, size: int)
    requires
        size > 0,
    ensures
        grid_line(grid_index(p, size), size) <= p < grid_line(grid_index(p, size) + 1, size),
{
    let d = cell_extent(size);
    let n = p - grid_origin(size);
    let q = n / d;
    assert(q * d <= n < (q + 1) * d) by (nonlinear_arith)
        requires
            d > 0,
            q == n / d,
    ;
}

/// Whether the coordinate `p` lies on the grid: from its first line up to,
/// but not on, its last.
pub open spec fn on_grid(p: int, size: int) -> bool {
    grid_line(0, size) <= p < grid_line(8, size)
}

/// A coordinate has one of the eight indices exactly when it lies on the
/// grid.
pub proof fn lemma_on_grid(p: int, size: int)
    requires
        size > 0,
    ensures
        on_grid(p, size) <==> 0 <= grid_index(p, size) <= 7,
{
    lemma_grid_index_bounds(p, size);
    let k = grid_index(p, size);
    let d = cell_extent(size);
    assert(k <= 7 ==> (k + 1) * d <= 8 * d) by (nonlinear_arith)
        requires
            d > 0,
    ;
    assert(k >= 8 ==> k * d >= 8 * d) by (nonlinear_arith)
        requires
            d > 0,
    ;
    assert(k >= 0 ==> k * d >= 0) by (nonlinear_arith)
        requires
            d > 0,
    ;
    assert(k <= -1 ==> (k + 1) * d <= 0) by (nonlinear_arith)
        requires
            d > 0,
    ;
}

/// Grid column (or row) of the coordinate `p`, when it is one of the eight.
fn index_on_grid(p: i64, size: u16) -> (r: Option<u8>)
    requires
        size > 0,
    ensures
        r == (if 0 <= grid_index(p as int, size as int) <= 7 {
            Some(grid_index(p as int, size as int) as u8)
        } else {
            None
        }),
        r is Some <==> on_grid(p as int, size as int),
        r matches Some(k) ==> grid_line(k as int, size as int) <= p < grid_line(
            k + 1,
            size as int,
        ),
{
    proof {
        lemma_grid_index_bounds(p as int, size as int);
        lemma_on_grid(p as int, size as int);
    }
    let origin: i64 = 10 * (size as i64);
    let extent: i64 = 20 * (size as i64);
    if p < origin {
        proof {
            let n = p - origin;
            let d = extent as int;
            assert(n / d < 0) by (nonlinear_arith)
                requires
                    n < 0,
                    d > 0,
            ;
        }
        return None;
    }
    let offset: u64 = (p - origin) as u64;
    let q: u64 = offset / (extent as u64);
    if q > 7 {
        None
    } else {
        Some(q as u8)
    }
}

/// Maps a pointer position to the square under it.
///
/// Returns `None` when the position lies outside the eight columns or the
/// eight rows; it is never clamped onto the board.
pub fn pixel_to_square(x: i64, y: i64, size: u16, reversed: bool) -> (r: Option<Square>)
    requires
        size > 0,
    ensures
        r == spec_pixel_to_square(x as int, y as int, size as int, reversed),
        r is Some <==> on_grid(x as int, size as int) && on_grid(y as int, size as int),
        r matches Some(s) ==> {
            &&& s.wf()
            &&& grid_line(column_of(s, reversed), size as int) <= x < grid_line(
                column_of(s, reversed) + 1,
                size as int,
            )
            &&& grid_line(row_of(s, reversed), size as int) <= y < grid_line(
                row_of(s, reversed) + 1,
                size as int,
            )
        },
{
    let col = match index_on_grid(x, size) {
        Some(c) => c,
        None => {
            return None;
        },
    };
    let row = match index_on_grid(y, size) {
        Some(r) => r,
        None => {
            return None;
        },
    };
    if reversed {
        Some(Square { file: 7 - col, rank: row })
    } else {
        Some(Square { file: col, rank: 7 - row })
    }
}

/// The square nearest to the position `(x, y)`: the square under it when it
/// lies on the grid, else the square of the border that is closest.
pub open spec fn spec_nearest_square(x: int, y: int, size: int, reversed: bool) -> Square {
    square_on_grid(
        clamp_coord(grid_index(x, size)),
        clamp_coord(grid_index(y, size)),
        reversed,
    )
}

/// Grid column (or row) nearest to the coordinate `p`.
fn nearest_index(p: i64, size: u16) -> (r: i32)
    requires
        size > 0,
    ensures
        clamp_coord(r as int) == clamp_coord(grid_index(p as int, size as int)),
{
    proof {
        lemma_grid_index_bounds(p as int, size as int);
        let k = grid_index(p as int, size as int);
        let d = cell_extent(size as int);
        assert(k >= 0 ==> k * d >= 0) by (nonlinear_arith)
            requires
                d > 0,
        ;
        assert(k <= -1 ==> (k + 1) * d <= 0) by (nonlinear_arith)
            requires
                d > 0,
        ;
    }
    match index_on_grid(p, size) {
        Some(k) => k as i32,
        None => if p < 10 * (size as i64) {
            -1
        } else {
            8
        },
    }
}

/// Maps a pointer position to the nearest square, for display only.
///
/// A position off the grid is taken to the border: this is for showing
/// where a dragged piece hovers, never for deciding where a gesture starts
/// or ends, which [`pixel_to_square`] does.
pub fn pixel_to_nearest_square(x: i64, y: i64, size: u16, reversed: bool) -> (s: Square)
    requires
        size > 0,
    ensures
        s == spec_nearest_square(x as int, y as int, size as int, reversed),
        s.wf(),
        spec_pixel_to_square(x as int, y as int, size as int, reversed) matches Some(under) ==> s
            == under,
{
    let col = Utils::coord_file_to_pleco_file(nearest_index(x, size));
    let row = Utils::coord_rank_to_pleco_rank(nearest_index(y, size));
    if reversed {
        Square { file: 7 - col, rank: row }
    } else {
        Square { file: col, rank: 7 - row }
    }
}

/// Top-left corner of the cell in which `square` is drawn: where its
/// sprite is placed.
pub fn square_to_pixel(square: Square, size: u16, reversed: bool) -> (p: Point)
    requires
        square.wf(),
    ensures
        p == spec_square_to_pixel(square, size as int, reversed),
        p.x == grid_line(column_of(square, reversed), size as int),
        p.y == grid_line(row_of(square, reversed), size as int),
{
    let col: i64 = if reversed {
        7 - square.file as i64
    } else {
        square.file as i64
    };
    let row: i64 = if reversed {
        square.rank as i64
    } else {
        7 - square.rank as i64
    };
    let origin: i64 = 10 * (size as i64);
    let extent: i64 = 20 * (size as i64);
    assert(0 <= col * extent <= 7 * extent && 0 <= row * extent <= 7 * extent)
        by (nonlinear_arith)
        requires
            0 <= col <= 7,
            0 <= row <= 7,
            0 <= extent,
    ;
    Point { x: origin + col * extent, y: origin + row * extent }
}

/// Round trip: the corner at which a square is drawn maps back to that
/// square, on a board of any positive size and in either orientation.
pub proof fn lemma_round_trip(square: Square, size: u16, reversed: bool)
    requires
        square.wf(),
        size > 0,
    ensures
        ({
            let p = spec_square_to_pixel(square, size as int, reversed);
            spec_pixel_to_square(p.x as int, p.y as int, size as int, reversed) == Some(square)
        }),
{
    let s = size as int;
    let col = column_of(square, reversed);
    let row = row_of(square, reversed);
    assert(0 <= col * (20 * s) <= 7 * (20 * s) && 0 <= row * (20 * s) <= 7 * (20 * s))
        by (nonlinear_arith)
        requires
            0 <= col <= 7,
            0 <= row <= 7,
            0 < s,
    ;
    assert((col + 1) * (20 * s) == col * (20 * s) + 20 * s && (row + 1) * (20 * s) == row * (20
        * s) + 20 * s) by (nonlinear_arith);
    lemma_grid_index_within(grid_line(col, s), s, col);
    lemma_grid_index_within(grid_line(row, s), s, row);
}

/// Orientation symmetry: the square under a position on the reversed board
/// is the mirror image of the square under it on the normal board, and the
/// position is off one board exactly when it is off the other.
pub proof fn lemma_orientation_symmetry(x: int, y: int, size: int)
    requires
        size > 0,
    ensures
        spec_pixel_to_square(x, y, size, true) == (match spec_pixel_to_square(x, y, size, false) {
            Some(s) => Some(s.flipped()),
            None => None,
        }),
{
}

} // verus!
