//! The 3x3 board and the pieces placed on it.
//!
//! The board is a column-major grid: `contents[i][j]` is the cell in column
//! `i` (counted from the left) and row `j` (counted from the top), matching
//! the cell indices that `pixel_math::screen_to_board` produces.

use vstd::prelude::*;

verus! {

/// One of the two markers a player places on the board.
#[derive(Clone, Copy, PartialEq, Eq, Structural, Debug)]
pub enum Piece {
    X,
    O,
}

/// The piece whose turn comes after `p`.
pub open spec fn other_piece(p: Piece) -> Piece {
    match p {
        Piece::X => Piece::O,
        Piece::O => Piece::X,
    }
}

/// A 3x3 grid of cells, each empty or holding a piece, viewed as a sequence
/// of three columns of three cells each.
pub struct Board {
    contents: Vec<Vec<Option<Piece>>>,
}

/// A board shape of exactly three columns of three cells.
pub open spec fn board_wf(s: Seq<Seq<Option<Piece>>>) -> bool {
    &&& s.len() == 3
    &&& forall|i: int| 0 <= i < 3 ==> (#[trigger] s[i]).len() == 3
}

impl View for Board {
    type V = Seq<Seq<Option<Piece>>>;

    closed spec fn view(&self) -> Seq<Seq<Option<Piece>>> {
        self.contents@.map_values(|col: Vec<Option<Piece>>| col@)
    }
}

impl Board {
    /// A fresh board with every cell empty.
    pub fn new() -> (b: Board)
        ensures
            board_wf(b@),
            forall|i: int, j: int| 0 <= i < 3 && 0 <= j < 3 ==> b@[i][j] is None,
    {
        let v: Vec<Vec<Option<Piece>>> = vec![vec![None;3];3];
        let b = Board { contents: v };
        proof {
            assert(forall|i: int| 0 <= i < 3 ==> b@[i] =~= v@[i]@);
        }
        b
    }

    /// The cell in column `i`, row `j`.
    pub fn get(&self, i: u16, j: u16) -> (r: Option<Piece>)
        requires
            board_wf(self@),
            i < 3,
            j < 3,
        ensures
            r == self@[i as int][j as int],
    {
        proof {
            assert(self@[i as int] == self.contents@[i as int]@);
        }
        self.contents[i as usize][j as usize]
    }

    /// Sets the cell in column `i`, row `j` to `Some(piece)` and changes no
    /// other cell. The rule that only an empty cell may be played is the
    /// caller's to keep: the board itself does not forbid overwriting.
    pub fn place(&mut self, i: u16, j: u16, piece: Piece)
        requires
            board_wf(old(self)@),
            i < 3,
            j < 3,
        ensures
            board_wf(final(self)@),
            final(self)@ == old(self)@.update(
                i as int,
                old(self)@[i as int].update(j as int, Some(piece)),
            ),
    {
        proof {
            assert(self@[i as int] == self.contents@[i as int]@);
        }
        self.contents[i as usize][j as usize] = Some(piece);
        proof {
            assert(final(self)@ =~~= old(self)@.update(
                i as int,
                old(self)@[i as int].update(j as int, Some(piece)),
            ));
        }
    }
}

} // verus!
