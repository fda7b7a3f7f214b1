//! Mapping between pixel coordinates on the canvas and cells of the 3x3 board.
//!
//! The canvas is 800x600 logical pixels. The board is drawn inside a centered
//! square whose side is 5/8 of the canvas width (500 pixels), leaving margins
//! of 150 pixels left and right and 50 pixels top and bottom. Each cell is a
//! third of the drawable square on each axis.
//!
//! All arithmetic is over integer pixels. The cell side, 500/3 pixels, is not
//! integral, so positions inside the drawable square are resolved with the
//! scaled quotient `(c - margin) * 3 / DRAWABLE`, which truncates exactly like
//! dividing by the cell side, and cell centers are truncated to whole pixels.

use vstd::prelude::*;

verus! {

/// Canvas width in pixels.
pub const SCREEN_W: i32 = 800;

/// Canvas height in pixels.
pub const SCREEN_H: i32 = 600;

/// Side of the centered drawable square: 5/8 of the canvas width.
pub const DRAWABLE: i32 = 500;

/// Horizontal margin between the canvas edge and the drawable square:
/// `(SCREEN_W - DRAWABLE) / 2`.
pub const MARGIN_X: i32 = 150;

/// Vertical margin between the canvas edge and the drawable square:
/// `(SCREEN_H - DRAWABLE) / 2`.
pub const MARGIN_Y: i32 = 50;

/// Cell index along one axis for a coordinate `c` inside the drawable square
/// that starts at `margin`. Truncation sends a point exactly on an interior
/// gridline to the higher-index cell; the single point exactly on the far
/// margin edge belongs to the last cell.
pub open spec fn cell_index_spec(c: int, margin: int) -> int {
    let t = (c - margin) * 3 / (DRAWABLE as int);
    if t > 2 {
        2
    } else {
        t
    }
}

/// Pixel coordinates accepted as clicks on the board: the closed drawable
/// square, margin edges included.
pub open spec fn in_drawable_spec(x: int, y: int) -> bool {
    &&& MARGIN_X <= x <= SCREEN_W - MARGIN_X
    &&& MARGIN_Y <= y <= SCREEN_H - MARGIN_Y
}

/// What `screen_to_board` returns: the cell under the point, or `None`
/// outside the drawable square.
pub open spec fn screen_to_board_spec(x: int, y: int) -> Option<(u16, u16)> {
    if in_drawable_spec(x, y) {
        Some(
            (cell_index_spec(x, MARGIN_X as int) as u16, cell_index_spec(y, MARGIN_Y as int) as u16),
        )
    } else {
        None
    }
}

/// Horizontal pixel center of column `i`, truncated to a whole pixel:
/// `margin + cell_side * (i + 1/2)` with `cell_side = 500/3`.
pub open spec fn center_x_spec(i: int) -> int {
    (3 * (MARGIN_X as int) + 500 * i + 250) / 3
}

/// Vertical pixel center of row `j`, truncated to a whole pixel.
pub open spec fn center_y_spec(j: int) -> int {
    (3 * (MARGIN_Y as int) + 500 * j + 250) / 3
}

/// Cell under the given pixel, if the pixel lies in the drawable square
/// (margin edges included); `None` otherwise, including everywhere in the
/// margin band and off the canvas.
pub fn screen_to_board(x: i32, y: i32) -> (r: Option<(u16, u16)>)
    ensures
        r == screen_to_board_spec(x as int, y as int),
{
    if x < MARGIN_X || x > SCREEN_W - MARGIN_X {
        None
    } else if y < MARGIN_Y || y > SCREEN_H - MARGIN_Y {
        None
    } else {
        let ti: i32 = (x - MARGIN_X) * 3 / DRAWABLE;
        let tj: i32 = (y - MARGIN_Y) * 3 / DRAWABLE;
        let i: u16 = if ti > 2 {
            2
        } else {
            ti as u16
        };
        let j: u16 = if tj > 2 {
            2
        } else {
            tj as u16
        };
        Some((i, j))
    }
}

/// Pixel center of cell `(i, j)`, the point where its glyph is drawn and
/// where a winning line through it starts or ends.
pub fn board_to_pixel_center(i: u16, j: u16) -> (r: (i32, i32))
    requires
        i < 3,
        j < 3,
    ensures
        r.0 == center_x_spec(i as int),
        r.1 == center_y_spec(j as int),
{
    let x: i32 = (3 * MARGIN_X + 500 * (i as i32) + 250) / 3;
    let y: i32 = (3 * MARGIN_Y + 500 * (j as i32) + 250) / 3;
    (x, y)
}

/// Round trip for cell centers: mapping a cell to its pixel center and that
/// pixel back to a cell returns the original cell.
pub proof fn lemma_center_round_trip(i: int, j: int)
    requires
        0 <= i < 3,
        0 <= j < 3,
    ensures
        screen_to_board_spec(center_x_spec(i), center_y_spec(j)) == Some(
            (i as u16, j as u16),
        ),
{
}

} // verus!
