//! Win detection for the cell that was just played.
//!
//! Rows and columns are checked with wrap-around adjacency: indices are taken
//! modulo 3, so column 2 is the right neighbour of column 1 and column 0 the
//! right neighbour of column 2. The two diagonals are checked against their
//! three fixed cells whether or not the played cell lies on them. Both habits
//! of the game are kept deliberately; see `winner_spec` for the exact rule.

use vstd::prelude::*;

use crate::board::{Board, Piece, board_wf};
use crate::game_math::{modulo, vec_max, vec_min};

verus! {

/// A completed win: the winning piece and the two endpoint cells of the
/// winning line, each as a `(column, row)` pair.
#[derive(Clone, Copy, PartialEq, Eq, Debug)]
pub struct Winner {
    pub piece: Piece,
    pub start: (u16, u16),
    pub end: (u16, u16),
}

/// Both endpoints of `w` name cells of the board.
pub open spec fn winner_wf(w: Winner) -> bool {
    &&& w.start.0 < 3
    &&& w.start.1 < 3
    &&& w.end.0 < 3
    &&& w.end.1 < 3
}

/// The played cell `(i, j)` and its two wrap-around row neighbours all hold
/// piece `p`: columns `i - 1` and `i + 1` modulo 3, in row `j`.
pub open spec fn row_win_spec(s: Seq<Seq<Option<Piece>>>, i: int, j: int, p: Piece) -> bool {
    &&& s[(i + 2) % 3][j] == Some(p)
    &&& s[(i + 1) % 3][j] == Some(p)
}

/// The played cell `(i, j)` and its two wrap-around column neighbours all
/// hold piece `p`: rows `j - 1` and `j + 1` modulo 3, in column `i`.
pub open spec fn col_win_spec(s: Seq<Seq<Option<Piece>>>, i: int, j: int, p: Piece) -> bool {
    &&& s[i][(j + 2) % 3] == Some(p)
    &&& s[i][(j + 1) % 3] == Some(p)
}

/// The top-left to bottom-right diagonal is filled with piece `p`.
pub open spec fn left_diag_win_spec(s: Seq<Seq<Option<Piece>>>, p: Piece) -> bool {
    &&& s[0][0] == Some(p)
    &&& s[2][2] == Some(p)
    &&& s[1][1] == Some(p)
}

/// The top-right to bottom-left diagonal is filled with piece `p`.
pub open spec fn right_diag_win_spec(s: Seq<Seq<Option<Piece>>>, p: Piece) -> bool {
    &&& s[2][0] == Some(p)
    &&& s[0][2] == Some(p)
    &&& s[1][1] == Some(p)
}

/// The outcome of checking the four line types through the played cell
/// `(i, j)`, in priority order: wrap-around row, wrap-around column, the two
/// fixed diagonals. The first match decides. A winning row always spans
/// columns 0 to 2 and a winning column rows 0 to 2, because the played cell
/// and its two wrap-around neighbours cover all three indices, and the
/// endpoints are the smallest and largest of those indices even when the line
/// wraps. An empty played cell yields `None`.
pub open spec fn winner_spec(s: Seq<Seq<Option<Piece>>>, i: int, j: int) -> Option<Winner> {
    match s[i][j] {
        None => None,
        Some(p) => if row_win_spec(s, i, j, p) {
            Some(Winner { piece: p, start: (0, j as u16), end: (2, j as u16) })
        } else if col_win_spec(s, i, j, p) {
            Some(Winner { piece: p, start: (i as u16, 0), end: (i as u16, 2) })
        } else if left_diag_win_spec(s, p) {
            Some(Winner { piece: p, start: (0, 0), end: (2, 2) })
        } else if right_diag_win_spec(s, p) {
            Some(Winner { piece: p, start: (0, 2), end: (2, 0) })
        } else {
            None
        },
    }
}

/// Whatever `winner_spec` returns is well formed.
pub proof fn lemma_winner_spec_wf(s: Seq<Seq<Option<Piece>>>, i: int, j: int)
    requires
        0 <= i < 3,
        0 <= j < 3,
    ensures
        match winner_spec(s, i, j) {
            Some(w) => winner_wf(w),
            None => true,
        },
{
}

/// Checks whether the piece just placed at `(i, j)` completed a line, and if
/// so which one. Must be called with the coordinates of the most recently
/// filled cell; on an empty cell it reports no winner.
pub fn find_winner(board: &Board, i: u16, j: u16) -> (r: Option<Winner>)
    requires
        board_wf(board@),
        i < 3,
        j < 3,
    ensures
        r == winner_spec(board@, i as int, j as int),
{
    let iu = i as usize;
    let ju = j as usize;
    let ii = i as i16;
    let ji = j as i16;
    if let Some(piece) = board.get(i, j) {
        // neighbours in the row, wrapping the column index
        let left = modulo(ii - 1, 3) as u16;
        let right = modulo(ii + 1, 3) as u16;
        let left_piece = board.get(left, j);
        let right_piece = board.get(right, j);

        // neighbours in the column, wrapping the row index
        let up = modulo(ji - 1, 3) as u16;
        let down = modulo(ji + 1, 3) as u16;
        let up_piece = board.get(i, up);
        let down_piece = board.get(i, down);

        // the two diagonals, on their fixed cells
        let lu_piece = board.get(0, 0);
        let rd_piece = board.get(2, 2);
        let ru_piece = board.get(2, 0);
        let ld_piece = board.get(0, 2);
        let center_piece = board.get(1, 1);

        if left_piece == Some(piece) && right_piece == Some(piece) {
            let s: Vec<usize> = vec![left as usize, iu, right as usize];
            let min = vec_min(&s);
            let max = vec_max(&s);
            proof {
                assert(s@[0] == left as usize && s@[1] == iu && s@[2] == right as usize);
                assert(min == Some(0usize) && max == Some(2usize)) by {
                    assert(s@.contains(0usize) && s@.contains(2usize));
                }
            }
            Some(
                Winner {
                    piece,
                    start: (min.unwrap() as u16, j),
                    end: (max.unwrap() as u16, j),
                },
            )
        } else if up_piece == Some(piece) && down_piece == Some(piece) {
            let s: Vec<usize> = vec![up as usize, ju, down as usize];
            let min = vec_min(&s);
            let max = vec_max(&s);
            proof {
                assert(s@[0] == up as usize && s@[1] == ju && s@[2] == down as usize);
                assert(min == Some(0usize) && max == Some(2usize)) by {
                    assert(s@.contains(0usize) && s@.contains(2usize));
                }
            }
            Some(
                Winner {
                    piece,
                    start: (i, min.unwrap() as u16),
                    end: (i, max.unwrap() as u16),
                },
            )
        } else if lu_piece == Some(piece) && rd_piece == Some(piece) && center_piece == Some(piece) {
            Some(Winner { piece, start: (0, 0), end: (2, 2) })
        } else if ru_piece == Some(piece) && ld_piece == Some(piece) && center_piece == Some(piece) {
            Some(Winner { piece, start: (0, 2), end: (2, 0) })
        } else {
            None
        }
    } else {
        None
    }
}

} // verus!
