use tic_tac_toe::pixel_math::{board_to_pixel_center, screen_to_board};

#[test]
fn center_round_trip_for_every_cell() {
    for i in 0u16..3 {
        for j in 0u16..3 {
            let (x, y) = board_to_pixel_center(i, j);
            assert_eq!(screen_to_board(x, y), Some((i, j)));
        }
    }
}

#[test]
fn cell_centers_are_truncated_pixels() {
    assert_eq!(board_to_pixel_center(0, 0), (233, 133));
    assert_eq!(board_to_pixel_center(1, 1), (400, 300));
    assert_eq!(board_to_pixel_center(2, 2), (566, 466));
}

#[test]
fn clicks_outside_the_drawable_square_map_to_none() {
    assert_eq!(screen_to_board(0, 0), None);
    assert_eq!(screen_to_board(149, 300), None);
    assert_eq!(screen_to_board(651, 300), None);
    assert_eq!(screen_to_board(300, 49), None);
    assert_eq!(screen_to_board(300, 551), None);
    assert_eq!(screen_to_board(-5, 300), None);
    assert_eq!(screen_to_board(799, 599), None);
}

#[test]
fn margin_edges_are_accepted() {
    assert_eq!(screen_to_board(150, 50), Some((0, 0)));
    assert_eq!(screen_to_board(650, 550), Some((2, 2)));
    assert_eq!(screen_to_board(650, 50), Some((2, 0)));
    assert_eq!(screen_to_board(150, 550), Some((0, 2)));
}

#[test]
fn interior_gridlines_bias_to_the_higher_cell() {
    // the first vertical gridline lies between pixels 316 and 317
    assert_eq!(screen_to_board(316, 300), Some((0, 1)));
    assert_eq!(screen_to_board(317, 300), Some((1, 1)));
    // the second between 483 and 484
    assert_eq!(screen_to_board(483, 300), Some((1, 1)));
    assert_eq!(screen_to_board(484, 300), Some((2, 1)));
    // the first horizontal gridline lies between pixels 216 and 217
    assert_eq!(screen_to_board(400, 216), Some((1, 0)));
    assert_eq!(screen_to_board(400, 217), Some((1, 1)));
}
