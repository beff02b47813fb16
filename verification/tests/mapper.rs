use chessboard::mapper::{
    pixel_to_nearest_square, pixel_to_square, square_to_pixel, Point, UNITS_PER_PIXEL,
};
use chessboard::square::Square;

fn at(x: i32, y: i32, size: u16, reversed: bool) -> Option<Square> {
    let p = Point::from_pixels(x, y);
    pixel_to_square(p.x, p.y, size, reversed)
}

#[test]
fn point_from_pixels_scales_by_units() {
    let p = Point::from_pixels(225, -3);
    assert_eq!(UNITS_PER_PIXEL, 160);
    assert_eq!(p, Point { x: 36000, y: -480 });
}

#[test]
fn press_on_e2_maps_to_file_4_rank_1() {
    assert_eq!(at(225, 325, 400, false), Some(Square { file: 4, rank: 1 }));
}

#[test]
fn release_on_e4_maps_to_file_4_rank_3() {
    assert_eq!(at(225, 225, 400, false), Some(Square { file: 4, rank: 3 }));
}

#[test]
fn release_on_g4_maps_to_file_6_rank_3() {
    assert_eq!(at(325, 225, 400, false), Some(Square { file: 6, rank: 3 }));
}

#[test]
fn reversed_board_mirrors_rows_and_columns() {
    // Row 1 from the top shows rank 2 on the reversed board, as row 6 does on
    // the normal one.
    assert_eq!(at(225, 325, 400, false).map(|s| s.rank), Some(1));
    assert_eq!(at(225, 75, 400, true).map(|s| s.rank), Some(1));
    // A position inside the fourth column from the left is on the e-file of
    // the reversed board.
    assert_eq!(at(200, 100, 400, true), Some(Square { file: 4, rank: 1 }));
    // The pixel column 225 starts the fifth column from the left, which is
    // the d-file of the reversed board.
    assert_eq!(at(225, 75, 400, true), Some(Square { file: 3, rank: 1 }));
}

#[test]
fn reversed_is_flip_of_normal_on_samples() {
    let mut y = -40;
    while y < 480 {
        let mut x = -40;
        while x < 480 {
            let normal = at(x, y, 400, false);
            let reversed = at(x, y, 400, true);
            assert_eq!(reversed, normal.map(|s| s.flip()));
            x += 7;
        }
        y += 11;
    }
}

#[test]
fn positions_off_the_grid_map_to_no_square() {
    // Left of and above the first grid line (25 px on a 400 px board).
    assert_eq!(at(24, 200, 400, false), None);
    assert_eq!(at(200, 24, 400, false), None);
    assert_eq!(at(0, 0, 400, false), None);
    assert_eq!(at(-1, -1, 400, false), None);
    assert_eq!(at(-1000, 200, 400, true), None);
    // At and beyond the last grid line (425 px).
    assert_eq!(at(425, 200, 400, false), None);
    assert_eq!(at(200, 425, 400, false), None);
    assert_eq!(at(424, 424, 400, false), Some(Square { file: 7, rank: 0 }));
    assert_eq!(at(25, 25, 400, false), Some(Square { file: 0, rank: 7 }));
    // The extremes of the coordinate range.
    assert_eq!(pixel_to_square(i64::MAX, i64::MAX, 400, false), None);
    assert_eq!(pixel_to_square(i64::MIN, i64::MIN, 400, true), None);
    assert_eq!(pixel_to_square(i64::MAX, 36000, 1, false), None);
}

#[test]
fn a_position_just_left_of_the_grid_is_not_taken_onto_it() {
    // 24.99 px: in the half cell before the first column.
    assert_eq!(pixel_to_square(160 * 25 - 1, 160 * 200, 400, false), None);
    assert_eq!(
        pixel_to_square(160 * 25, 160 * 200, 400, false),
        Some(Square { file: 0, rank: 4 })
    );
}

#[test]
fn square_to_pixel_gives_the_cell_corner() {
    // e2 on a 400 px board: column 4, row 6; cell 50 px, grid from 25 px.
    let p = square_to_pixel(Square { file: 4, rank: 1 }, 400, false);
    assert_eq!(p, Point::from_pixels(225, 325));
    let p = square_to_pixel(Square { file: 4, rank: 1 }, 400, true);
    assert_eq!(p, Point::from_pixels(175, 75));
    let p = square_to_pixel(Square { file: 0, rank: 0 }, 400, false);
    assert_eq!(p, Point::from_pixels(25, 375));
    // A size that is no multiple of 16: the corner is no whole pixel.
    let p = square_to_pixel(Square { file: 1, rank: 7 }, 3, false);
    assert_eq!(p, Point { x: 90, y: 30 });
}

#[test]
fn round_trip_for_every_square_and_many_sizes() {
    let sizes: [u16; 9] = [1, 2, 3, 7, 8, 17, 400, 1001, 65535];
    for size in sizes {
        for reversed in [false, true] {
            for file in 0..8u8 {
                for rank in 0..8u8 {
                    let s = Square { file, rank };
                    let p = square_to_pixel(s, size, reversed);
                    assert_eq!(pixel_to_square(p.x, p.y, size, reversed), Some(s));
                }
            }
        }
    }
}

#[test]
fn square_new_rejects_coordinates_off_the_board() {
    assert_eq!(Square::new(0, 0), Some(Square { file: 0, rank: 0 }));
    assert_eq!(Square::new(7, 7), Some(Square { file: 7, rank: 7 }));
    assert_eq!(Square::new(8, 0), None);
    assert_eq!(Square::new(0, 8), None);
    assert_eq!(Square::new(255, 255), None);
}

#[test]
fn square_flip_and_index() {
    let e2 = Square { file: 4, rank: 1 };
    assert_eq!(e2.flip(), Square { file: 3, rank: 6 });
    assert_eq!(e2.flip().flip(), e2);
    assert_eq!(e2.to_index(), 12);
    assert_eq!(Square { file: 0, rank: 0 }.to_index(), 0);
    assert_eq!(Square { file: 7, rank: 7 }.to_index(), 63);
}

#[test]
fn nearest_square_agrees_with_the_square_under_the_pointer() {
    for reversed in [false, true] {
        let mut y = 25;
        while y < 425 {
            let mut x = 25;
            while x < 425 {
                let p = Point::from_pixels(x, y);
                assert_eq!(
                    Some(pixel_to_nearest_square(p.x, p.y, 400, reversed)),
                    pixel_to_square(p.x, p.y, 400, reversed)
                );
                x += 13;
            }
            y += 17;
        }
    }
}

#[test]
fn nearest_square_takes_positions_off_the_grid_to_the_border() {
    let nearest = |x: i32, y: i32, reversed: bool| {
        let p = Point::from_pixels(x, y);
        pixel_to_nearest_square(p.x, p.y, 400, reversed)
    };
    // Left of the grid, in the row of the fourth rank.
    assert_eq!(nearest(0, 240, false), Square { file: 0, rank: 3 });
    assert_eq!(nearest(-5000, 240, false), Square { file: 0, rank: 3 });
    assert_eq!(nearest(0, 240, true), Square { file: 7, rank: 4 });
    // Right of and below the grid.
    assert_eq!(nearest(425, 425, false), Square { file: 7, rank: 0 });
    assert_eq!(nearest(9000, 9000, true), Square { file: 0, rank: 7 });
    // Above the grid, over the e-file.
    assert_eq!(nearest(230, 3, false), Square { file: 4, rank: 7 });
    assert_eq!(pixel_to_nearest_square(i64::MIN, i64::MAX, 400, false), Square { file: 0, rank: 0 });
    // The strict mapping refuses all of these.
    assert_eq!(at(0, 240, 400, false), None);
    assert_eq!(at(425, 425, 400, false), None);
}
