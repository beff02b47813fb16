//! Geometry of the static layer: the cell grid and the coordinate labels.
//!
//! Everything here follows from the board's size and orientation alone. In
//! units of 1/160 pixel a cell of a board of `s` pixels measures `20 s`, the
//! grid starts at `10 s`, and the labels sit a quarter cell (`5 s`) in from
//! the near edge and at `175 s` from it on the far side, in a font of
//! `8 s`.

use vstd::prelude::*;
use crate::mapper::{cell_extent, grid_line};
use crate::primitives::{Color, Label, Quad, Rectangle};

verus! {

/// The cell at row `row`, column `col` of the grid. Cells whose row and
/// column have an even sum are light; the pattern does not turn with the
/// board.
pub open spec fn cell_quad(row: int, col: int, size: int, light: Color, dark: Color) -> Quad {
    Quad {
        bounds: Rectangle {
            x: grid_line(col, size) as i64,
            y: grid_line(row, size) as i64,
            width: cell_extent(size) as i64,
            height: cell_extent(size) as i64,
        },
        radius: 0,
        color: if (row + col) % 2 == 0 {
            light
        } else {
            dark
        },
    }
}

/// The 64 cells, row by row from the top.
pub open spec fn spec_cells(size: int, light: Color, dark: Color) -> Seq<Quad> {
    Seq::new(64, |k: int| cell_quad(k / 8, k % 8, size, light, dark))
}

/// The letter of file `file`.
pub open spec fn file_letter(file: int) -> char {
    if file == 0 {
        'A'
    } else if file == 1 {
        'B'
    } else if file == 2 {
        'C'
    } else if file == 3 {
        'D'
    } else if file == 4 {
        'E'
    } else if file == 5 {
        'F'
    } else if file == 6 {
        'G'
    } else {
        'H'
    }
}

/// The digit of rank `rank`.
pub open spec fn rank_digit(rank: int) -> char {
    if rank == 0 {
        '1'
    } else if rank == 1 {
        '2'
    } else if rank == 2 {
        '3'
    } else if rank == 3 {
        '4'
    } else if rank == 4 {
        '5'
    } else if rank == 5 {
        '6'
    } else if rank == 6 {
        '7'
    } else {
        '8'
    }
}

/// Centre of the label that belongs to grid column (or row) `k`: the middle
/// of that column.
pub open spec fn label_center(k: int, size: int) -> int {
    (k + 1) * cell_extent(size)
}

/// Where the labels of the near edge (top, left) are centred.
pub open spec fn near_margin(size: int) -> int {
    5 * size
}

/// Where the labels of the far edge (bottom, right) are centred.
pub open spec fn far_margin(size: int) -> int {
    175 * size
}

/// Font size of the labels.
pub open spec fn label_size(size: int) -> int {
    8 * size
}

/// The grid column in which file `file` is drawn; also the grid row in
/// which the rank with that distance from the eighth is drawn.
pub open spec fn turned(k: int, reversed: bool) -> int {
    if reversed {
        7 - k
    } else {
        k
    }
}

/// Label number `k` of the 32: first, for each file from a to h, its
/// letter above and below the grid; then, for each rank from the eighth to
/// the first, its digit left and right of the grid.
pub open spec fn coordinate_label(k: int, size: int, reversed: bool, color: Color) -> Label {
    let along = label_center(turned((k % 16) / 2, reversed), size) as i64;
    let across = if k % 2 == 0 {
        near_margin(size) as i64
    } else {
        far_margin(size) as i64
    };
    if k < 16 {
        Label {
            content: file_letter(k / 2),
            x: along,
            y: across,
            size: label_size(size) as i64,
            color,
        }
    } else {
        Label {
            content: rank_digit(7 - (k - 16) / 2),
            x: across,
            y: along,
            size: label_size(size) as i64,
            color,
        }
    }
}

/// The 32 coordinate labels.
pub open spec fn spec_labels(size: int, reversed: bool, color: Color) -> Seq<Label> {
    Seq::new(32, |k: int| coordinate_label(k, size, reversed, color))
}

/// The quad that fills the whole widget behind the grid.
pub open spec fn spec_backdrop(size: int, color: Color) -> Quad {
    Quad {
        bounds: Rectangle {
            x: 0,
            y: 0,
            width: (160 * size) as i64,
            height: (160 * size) as i64,
        },
        radius: 0,
        color,
    }
}

/// The letter of file `file`.
pub fn letter_of_file(file: u8) -> (c: char)
    requires
        file < 8,
    ensures
        c == file_letter(file as int),
{
    match file {
        0 => 'A',
        1 => 'B',
        2 => 'C',
        3 => 'D',
        4 => 'E',
        5 => 'F',
        6 => 'G',
        _ => 'H',
    }
}

/// The digit of rank `rank`.
pub fn digit_of_rank(rank: u8) -> (c: char)
    requires
        rank < 8,
    ensures
        c == rank_digit(rank as int),
{
    match rank {
        0 => '1',
        1 => '2',
        2 => '3',
        3 => '4',
        4 => '5',
        5 => '6',
        6 => '7',
        _ => '8',
    }
}

/// The quad that fills the whole widget behind the grid.
pub fn backdrop(size: u16, color: Color) -> (q: Quad)
    ensures
        q == spec_backdrop(size as int, color),
{
    let side: i64 = 160 * (size as i64);
    Quad { bounds: Rectangle { x: 0, y: 0, width: side, height: side }, radius: 0, color }
}

/// Lays out the 64 cells of the grid, row by row from the top.
pub fn cells(size: u16, light: Color, dark: Color) -> (quads: Vec<Quad>)
    ensures
        quads@ == spec_cells(size as int, light, dark),
{
    let extent: i64 = 20 * (size as i64);
    let origin: i64 = 10 * (size as i64);
    let mut quads: Vec<Quad> = Vec::new();
    let mut row: u8 = 0;
    while row < 8
        invariant
            0 <= row <= 8,
            extent == cell_extent(size as int),
            origin == 10 * size,
            quads@.len() == row * 8,
            forall|k: int|
                0 <= k < quads@.len() ==> #[trigger] quads@[k] == cell_quad(
                    k / 8,
                    k % 8,
                    size as int,
                    light,
                    dark,
                ),
        decreases 8 - row,
    {
        let mut col: u8 = 0;
        while col < 8
            invariant
                0 <= row < 8,
                0 <= col <= 8,
                extent == cell_extent(size as int),
                origin == 10 * size,
                quads@.len() == row * 8 + col,
                forall|k: int|
                    0 <= k < quads@.len() ==> #[trigger] quads@[k] == cell_quad(
                        k / 8,
                        k % 8,
                        size as int,
                        light,
                        dark,
                    ),
            decreases 8 - col,
        {
            assert(0 <= col * extent <= 7 * extent && 0 <= row * extent <= 7 * extent)
                by (nonlinear_arith)
                requires
                    0 <= col <= 7,
                    0 <= row <= 7,
                    0 <= extent,
            ;
            let color = if (row + col) % 2 == 0 {
                light
            } else {
                dark
            };
            let quad = Quad {
                bounds: Rectangle {
                    x: origin + (col as i64) * extent,
                    y: origin + (row as i64) * extent,
                    width: extent,
                    height: extent,
                },
                radius: 0,
                color,
            };
            proof {
                let k = row * 8 + col;
                assert(k / 8 == row && k % 8 == col);
            }
            quads.push(quad);
            col = col + 1;
        }
        row = row + 1;
    }
    assert(quads@ =~= spec_cells(size as int, light, dark));
    quads
}

/// Lays out the 32 coordinate labels: letters above and below the grid,
/// digits left and right of it, placed by the board's orientation.
pub fn labels(size: u16, reversed: bool, color: Color) -> (texts: Vec<Label>)
    ensures
        texts@ == spec_labels(size as int, reversed, color),
{
    let extent: i64 = 20 * (size as i64);
    let near: i64 = 5 * (size as i64);
    let far: i64 = 175 * (size as i64);
    let font: i64 = 8 * (size as i64);
    let mut texts: Vec<Label> = Vec::new();
    let mut col: u8 = 0;
    while col < 8
        invariant
            0 <= col <= 8,
            extent == cell_extent(size as int),
            near == near_margin(size as int),
            far == far_margin(size as int),
            font == label_size(size as int),
            texts@.len() == 2 * col,
            forall|k: int|
                0 <= k < texts@.len() ==> #[trigger] texts@[k] == coordinate_label(
                    k,
                    size as int,
                    reversed,
                    color,
                ),
        decreases 8 - col,
    {
        let place: i64 = if reversed {
            7 - col as i64
        } else {
            col as i64
        };
        assert(0 <= (place + 1) * extent <= 8 * extent) by (nonlinear_arith)
            requires
                0 <= place <= 7,
                0 <= extent,
        ;
        let x = (place + 1) * extent;
        let content = letter_of_file(col);
        proof {
            let k = 2 * col;
            assert((k % 16) / 2 == col && k / 2 == col && k % 2 == 0);
            assert(((k + 1) % 16) / 2 == col && (k + 1) / 2 == col && (k + 1) % 2 == 1);
        }
        texts.push(Label { content, x, y: near, size: font, color });
        texts.push(Label { content, x, y: far, size: font, color });
        col = col + 1;
    }
    let mut row: u8 = 0;
    while row < 8
        invariant
            0 <= row <= 8,
            extent == cell_extent(size as int),
            near == near_margin(size as int),
            far == far_margin(size as int),
            font == label_size(size as int),
            texts@.len() == 16 + 2 * row,
            forall|k: int|
                0 <= k < texts@.len() ==> #[trigger] texts@[k] == coordinate_label(
                    k,
                    size as int,
                    reversed,
                    color,
                ),
        decreases 8 - row,
    {
        let place: i64 = if reversed {
            7 - row as i64
        } else {
            row as i64
        };
        assert(0 <= (place + 1) * extent <= 8 * extent) by (nonlinear_arith)
            requires
                0 <= place <= 7,
                0 <= extent,
        ;
        let y = (place + 1) * extent;
        let content = digit_of_rank(7 - row);
        proof {
            let k = 16 + 2 * row;
            assert((k % 16) / 2 == row && (k - 16) / 2 == row && k % 2 == 0);
            assert(((k + 1) % 16) / 2 == row && (k + 1 - 16) / 2 == row && (k + 1) % 2 == 1);
        }
        texts.push(Label { content, x: near, y, size: font, color });
        texts.push(Label { content, x: far, y, size: font, color });
        row = row + 1;
    }
    assert(texts@ =~= spec_labels(size as int, reversed, color));
    texts
}

} // verus!
