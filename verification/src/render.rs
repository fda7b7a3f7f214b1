//! Drawable geometry for the current state of a game.
//!
//! Pulled by the host renderer on every frame: the four gridlines of the
//! board, a glyph for every occupied cell (two crossing strokes for an X, a
//! circle outline for an O), and, once the game is won, a thick highlight
//! line between the centers of the winning line's endpoint cells. All
//! coordinates are whole pixels on the 800x600 canvas.

use vstd::prelude::*;

use crate::board::{Board, Piece, board_wf};
use crate::pixel_math::{
    MARGIN_X, MARGIN_Y, SCREEN_H, SCREEN_W, board_to_pixel_center, center_x_spec, center_y_spec,
};
use crate::winner::{Winner, winner_wf};

verus! {

/// Width of gridlines and glyph strokes, in pixels.
pub const LINE_WIDTH: i32 = 4;

/// Width of the winning-line highlight, in pixels.
pub const WIN_LINE_WIDTH: i32 = 12;

/// Radius of the O glyph's circle outline, in pixels.
pub const O_PIECE_RADIUS: i32 = 60;

/// Distance from a cell's center to the ends of the X glyph's strokes on
/// each axis: 0.70 of half a cell side, truncated to a whole pixel.
pub const X_PIECE_OFFSET: i32 = 58;

/// A pixel position on the canvas.
#[derive(Clone, Copy, PartialEq, Eq, Structural, Debug)]
pub struct Point {
    pub x: i32,
    pub y: i32,
}

/// One drawable primitive for the host renderer.
#[derive(Clone, Copy, PartialEq, Eq, Structural, Debug)]
pub enum Shape {
    /// A line segment of the given stroke width.
    Line { a: Point, b: Point, width: i32 },
    /// A circle outline of the given radius.
    Circle { center: Point, radius: i32 },
}

/// The pixel center of cell `(i, j)` as a point.
pub open spec fn cell_center_spec(i: int, j: int) -> Point {
    Point { x: center_x_spec(i) as i32, y: center_y_spec(j) as i32 }
}

/// The `k`-th horizontal gridline, at a third or two thirds of the drawable
/// square's height, spanning its full width.
pub open spec fn h_grid_line_spec(k: int) -> Shape {
    Shape::Line {
        a: Point { x: MARGIN_X, y: ((3 * (MARGIN_Y as int) + 500 * k) / 3) as i32 },
        b: Point {
            x: (SCREEN_W - MARGIN_X) as i32,
            y: ((3 * (MARGIN_Y as int) + 500 * k) / 3) as i32,
        },
        width: LINE_WIDTH,
    }
}

/// The `k`-th vertical gridline, at a third or two thirds of the drawable
/// square's width, spanning its full height.
pub open spec fn v_grid_line_spec(k: int) -> Shape {
    Shape::Line {
        a: Point { x: ((3 * (MARGIN_X as int) + 500 * k) / 3) as i32, y: MARGIN_Y },
        b: Point {
            x: ((3 * (MARGIN_X as int) + 500 * k) / 3) as i32,
            y: (SCREEN_H - MARGIN_Y) as i32,
        },
        width: LINE_WIDTH,
    }
}

/// The four background gridlines, horizontal pair first.
pub open spec fn grid_spec() -> Seq<Shape> {
    seq![h_grid_line_spec(1), h_grid_line_spec(2), v_grid_line_spec(1), v_grid_line_spec(2)]
}

/// One stroke of the X glyph in cell `(i, j)`: the falling stroke when
/// `left` is true, the rising stroke otherwise.
pub open spec fn x_stroke_spec(i: int, j: int, left: bool) -> Shape {
    let cx = center_x_spec(i);
    let cy = center_y_spec(j);
    let off = X_PIECE_OFFSET as int;
    if left {
        Shape::Line {
            a: Point { x: (cx - off) as i32, y: (cy - off) as i32 },
            b: Point { x: (cx + off) as i32, y: (cy + off) as i32 },
            width: LINE_WIDTH,
        }
    } else {
        Shape::Line {
            a: Point { x: (cx + off) as i32, y: (cy - off) as i32 },
            b: Point { x: (cx - off) as i32, y: (cy + off) as i32 },
            width: LINE_WIDTH,
        }
    }
}

/// The O glyph in cell `(i, j)`: a circle outline at the cell's center.
pub open spec fn o_circle_spec(i: int, j: int) -> Shape {
    Shape::Circle { center: cell_center_spec(i, j), radius: O_PIECE_RADIUS }
}

/// The glyph shapes of cell `(i, j)`: nothing for an empty cell, the two
/// crossing strokes for an X, the circle outline for an O.
pub open spec fn cell_shapes_spec(s: Seq<Seq<Option<Piece>>>, i: int, j: int) -> Seq<Shape> {
    match s[i][j] {
        None => Seq::empty(),
        Some(Piece::X) => seq![x_stroke_spec(i, j, true), x_stroke_spec(i, j, false)],
        Some(Piece::O) => seq![o_circle_spec(i, j)],
    }
}

/// The glyph shapes of the first `n` cells, in drawing order: column by
/// column, and top to bottom within a column.
pub open spec fn shapes_upto_spec(s: Seq<Seq<Option<Piece>>>, n: int) -> Seq<Shape>
    decreases n,
{
    if n <= 0 {
        Seq::empty()
    } else {
        shapes_upto_spec(s, n - 1) + cell_shapes_spec(s, (n - 1) / 3, (n - 1) % 3)
    }
}

/// Everything drawn for the board `s` itself: the gridlines, then the
/// glyphs of all nine cells in drawing order.
pub open spec fn game_shapes_spec(s: Seq<Seq<Option<Piece>>>) -> Seq<Shape> {
    grid_spec() + shapes_upto_spec(s, 9)
}

/// The highlight line for a win: a thick segment between the centers of the
/// winning line's endpoint cells.
pub open spec fn winner_shape_spec(w: Winner) -> Shape {
    Shape::Line {
        a: cell_center_spec(w.start.0 as int, w.start.1 as int),
        b: cell_center_spec(w.end.0 as int, w.end.1 as int),
        width: WIN_LINE_WIDTH,
    }
}

/// Appends the four background gridlines.
pub fn add_background_to_shapes(out: &mut Vec<Shape>)
    ensures
        final(out)@ == old(out)@ + grid_spec(),
{
    out.push(
        Shape::Line {
            a: Point { x: MARGIN_X, y: (3 * MARGIN_Y + 500) / 3 },
            b: Point { x: SCREEN_W - MARGIN_X, y: (3 * MARGIN_Y + 500) / 3 },
            width: LINE_WIDTH,
        },
    );
    out.push(
        Shape::Line {
            a: Point { x: MARGIN_X, y: (3 * MARGIN_Y + 1000) / 3 },
            b: Point { x: SCREEN_W - MARGIN_X, y: (3 * MARGIN_Y + 1000) / 3 },
            width: LINE_WIDTH,
        },
    );
    out.push(
        Shape::Line {
            a: Point { x: (3 * MARGIN_X + 500) / 3, y: MARGIN_Y },
            b: Point { x: (3 * MARGIN_X + 500) / 3, y: SCREEN_H - MARGIN_Y },
            width: LINE_WIDTH,
        },
    );
    out.push(
        Shape::Line {
            a: Point { x: (3 * MARGIN_X + 1000) / 3, y: MARGIN_Y },
            b: Point { x: (3 * MARGIN_X + 1000) / 3, y: SCREEN_H - MARGIN_Y },
            width: LINE_WIDTH,
        },
    );
    proof {
        assert(final(out)@ =~= old(out)@ + grid_spec());
    }
}

/// One stroke of the X glyph in cell `(i, j)`.
pub fn piece_x_stroke(i: u16, j: u16, left: bool) -> (r: Shape)
    requires
        i < 3,
        j < 3,
    ensures
        r == x_stroke_spec(i as int, j as int, left),
{
    let (cx, cy) = board_to_pixel_center(i, j);
    if left {
        Shape::Line {
            a: Point { x: cx - X_PIECE_OFFSET, y: cy - X_PIECE_OFFSET },
            b: Point { x: cx + X_PIECE_OFFSET, y: cy + X_PIECE_OFFSET },
            width: LINE_WIDTH,
        }
    } else {
        Shape::Line {
            a: Point { x: cx + X_PIECE_OFFSET, y: cy - X_PIECE_OFFSET },
            b: Point { x: cx - X_PIECE_OFFSET, y: cy + X_PIECE_OFFSET },
            width: LINE_WIDTH,
        }
    }
}

/// The center of the O glyph in cell `(i, j)`.
pub fn piece_o_center(i: u16, j: u16) -> (r: Point)
    requires
        i < 3,
        j < 3,
    ensures
        r == cell_center_spec(i as int, j as int),
{
    let (cx, cy) = board_to_pixel_center(i, j);
    Point { x: cx, y: cy }
}

/// Appends a glyph for every occupied cell, in drawing order.
pub fn add_pieces_to_shapes(out: &mut Vec<Shape>, board: &Board)
    requires
        board_wf(board@),
    ensures
        final(out)@ == old(out)@ + shapes_upto_spec(board@, 9),
{
    let mut i: u16 = 0;
    while i < 3
        invariant
            board_wf(board@),
            i <= 3,
            out@ == old(out)@ + shapes_upto_spec(board@, 3 * i as int),
        decreases 3 - i as int,
    {
        let mut j: u16 = 0;
        while j < 3
            invariant
                board_wf(board@),
                i < 3,
                j <= 3,
                out@ == old(out)@ + shapes_upto_spec(board@, 3 * i as int + j as int),
            decreases 3 - j as int,
        {
            let ghost n = 3 * i as int + j as int;
            match board.get(i, j) {
                None => {},
                Some(Piece::X) => {
                    out.push(piece_x_stroke(i, j, true));
                    out.push(piece_x_stroke(i, j, false));
                },
                Some(Piece::O) => {
                    out.push(
                        Shape::Circle { center: piece_o_center(i, j), radius: O_PIECE_RADIUS },
                    );
                },
            }
            proof {
                assert(n / 3 == i as int && n % 3 == j as int);
                assert(out@ =~= old(out)@ + shapes_upto_spec(board@, n + 1));
            }
            j = j + 1;
        }
        i = i + 1;
    }
}

/// Everything drawn for the board: gridlines, then the cell glyphs.
pub fn build_game_shapes(board: &Board) -> (r: Vec<Shape>)
    requires
        board_wf(board@),
    ensures
        r@ == game_shapes_spec(board@),
{
    let mut v: Vec<Shape> = Vec::new();
    add_background_to_shapes(&mut v);
    add_pieces_to_shapes(&mut v, board);
    proof {
        assert(v@ =~= game_shapes_spec(board@));
    }
    v
}

/// The highlight line between the centers of the winning line's endpoints.
pub fn build_winner_shape(winner: &Winner) -> (r: Shape)
    requires
        winner_wf(*winner),
    ensures
        r == winner_shape_spec(*winner),
{
    let (ax, ay) = board_to_pixel_center(winner.start.0, winner.start.1);
    let (bx, by) = board_to_pixel_center(winner.end.0, winner.end.1);
    Shape::Line {
        a: Point { x: ax, y: ay },
        b: Point { x: bx, y: by },
        width: WIN_LINE_WIDTH,
    }
}

} // verus!
