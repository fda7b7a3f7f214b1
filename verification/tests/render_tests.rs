use tic_tac_toe::board::{Board, Piece};
use tic_tac_toe::render::{Point, Shape, build_game_shapes, build_winner_shape};
use tic_tac_toe::winner::Winner;

fn line(ax: i32, ay: i32, bx: i32, by: i32, width: i32) -> Shape {
    Shape::Line { a: Point { x: ax, y: ay }, b: Point { x: bx, y: by }, width }
}

#[test]
fn an_empty_board_draws_only_the_four_gridlines() {
    let b = Board::new();
    let shapes = build_game_shapes(&b);
    assert_eq!(
        shapes,
        vec![
            line(150, 216, 650, 216, 4),
            line(150, 383, 650, 383, 4),
            line(316, 50, 316, 550, 4),
            line(483, 50, 483, 550, 4),
        ]
    );
}

#[test]
fn an_x_is_two_crossing_strokes_about_the_cell_center() {
    let mut b = Board::new();
    b.place(0, 0, Piece::X);
    let shapes = build_game_shapes(&b);
    assert_eq!(shapes.len(), 6);
    // cell (0,0) has its center at pixel (233, 133), the strokes 58 pixels out
    assert_eq!(shapes[4], line(175, 75, 291, 191, 4));
    assert_eq!(shapes[5], line(291, 75, 175, 191, 4));
}

#[test]
fn an_o_is_a_circle_outline_at_the_cell_center() {
    let mut b = Board::new();
    b.place(1, 1, Piece::O);
    let shapes = build_game_shapes(&b);
    assert_eq!(shapes.len(), 5);
    assert_eq!(
        shapes[4],
        Shape::Circle { center: Point { x: 400, y: 300 }, radius: 60 }
    );
}

#[test]
fn glyphs_come_in_drawing_order_column_by_column() {
    let mut b = Board::new();
    b.place(2, 0, Piece::O);
    b.place(0, 2, Piece::O);
    let shapes = build_game_shapes(&b);
    assert_eq!(shapes.len(), 6);
    // column 0 is drawn before column 2
    assert_eq!(
        shapes[4],
        Shape::Circle { center: Point { x: 233, y: 466 }, radius: 60 }
    );
    assert_eq!(
        shapes[5],
        Shape::Circle { center: Point { x: 566, y: 133 }, radius: 60 }
    );
}

#[test]
fn the_winner_highlight_joins_the_endpoint_cell_centers() {
    let w = Winner { piece: Piece::X, start: (0, 0), end: (2, 0) };
    assert_eq!(build_winner_shape(&w), line(233, 133, 566, 133, 12));
    let d = Winner { piece: Piece::O, start: (0, 2), end: (2, 0) };
    assert_eq!(build_winner_shape(&d), line(233, 466, 566, 133, 12));
}
