//! The turn state machine that owns the board.
//!
//! A game is either in progress or won. A click is mapped to a cell, a piece
//! is placed when the game is still in progress and the cell is empty, the
//! win detector runs on the cell just filled, and either the winner is
//! recorded (freezing the game) or the turn passes to the other piece.
//! Invalid clicks, on occupied cells or outside the drawable square, change
//! nothing.

use vstd::prelude::*;
use vstd::string::StringExecFns;

use crate::board::{Board, Piece, board_wf, other_piece};
use crate::pixel_math::screen_to_board_spec;
use crate::winner::{Winner, find_winner, lemma_winner_spec_wf, winner_spec, winner_wf};

verus! {

/// The abstract state of a game: the cells column by column, whose turn it
/// is, the recorded winner if any, and the outcome message if any.
#[verifier::ext_equal]
pub struct GameView {
    pub cells: Seq<Seq<Option<Piece>>>,
    pub turn: Piece,
    pub winner: Option<Winner>,
    pub message: Option<Seq<char>>,
}

/// The fixed outcome message for a win by `p`.
pub open spec fn message_spec(p: Piece) -> Seq<char> {
    match p {
        Piece::X => "X rides high above the clouds"@,
        Piece::O => "O expands its kingdom beyond the horizon"@,
    }
}

/// A game state that the controller can be in: the board is 3x3, a recorded
/// winner names cells of the board, and the message exists exactly when a
/// winner does, with the winner's fixed text.
pub open spec fn game_wf(v: GameView) -> bool {
    &&& board_wf(v.cells)
    &&& match v.winner {
        Some(w) => winner_wf(w) && v.message == Some(message_spec(w.piece)),
        None => v.message is None,
    }
}

/// The click at pixel `(x, y)` will place a piece: the game is still in
/// progress, the pixel lies on the board, and the cell under it is empty.
pub open spec fn click_places(v: GameView, x: int, y: int) -> bool {
    &&& v.winner is None
    &&& match screen_to_board_spec(x, y) {
        Some(c) => v.cells[c.0 as int][c.1 as int] is None,
        None => false,
    }
}

/// The state after a click at pixel `(x, y)`: unchanged once won, unchanged
/// for clicks off the board or on an occupied cell; otherwise the current
/// piece is placed, and either the win is recorded with its message, or the
/// turn toggles.
pub open spec fn step(v: GameView, x: int, y: int) -> GameView {
    if v.winner is Some {
        v
    } else {
        match screen_to_board_spec(x, y) {
            None => v,
            Some(c) => {
                let i = c.0 as int;
                let j = c.1 as int;
                if v.cells[i][j] is Some {
                    v
                } else {
                    let cells2 = v.cells.update(i, v.cells[i].update(j, Some(v.turn)));
                    match winner_spec(cells2, i, j) {
                        Some(w) => GameView {
                            cells: cells2,
                            turn: v.turn,
                            winner: Some(w),
                            message: Some(message_spec(w.piece)),
                        },
                        None => GameView {
                            cells: cells2,
                            turn: other_piece(v.turn),
                            winner: None,
                            message: v.message,
                        },
                    }
                }
            },
        }
    }
}

/// The game controller: the board, whose turn it is, and, once a line is
/// completed, the winner and the outcome message.
pub struct GameState {
    board: Board,
    current_turn: Piece,
    winner: Option<Winner>,
    message: Option<String>,
}

impl View for GameState {
    type V = GameView;

    closed spec fn view(&self) -> GameView {
        GameView {
            cells: self.board@,
            turn: self.current_turn,
            winner: self.winner,
            message: match self.message {
                Some(m) => Some(m@),
                None => None,
            },
        }
    }
}

/// The fixed outcome message for a win by `p`.
pub fn winner_message(p: Piece) -> (r: String)
    ensures
        r@ == message_spec(p),
{
    match p {
        Piece::X => String::from_str("X rides high above the clouds"),
        Piece::O => String::from_str("O expands its kingdom beyond the horizon"),
    }
}

impl GameState {
    /// A fresh game: empty board, X to move, no winner, no message.
    pub fn new() -> (s: GameState)
        ensures
            game_wf(s@),
            forall|i: int, j: int| 0 <= i < 3 && 0 <= j < 3 ==> s@.cells[i][j] is None,
            s@.turn == Piece::X,
            s@.winner is None,
            s@.message is None,
    {
        GameState {
            board: Board::new(),
            current_turn: Piece::X,
            winner: None,
            message: None,
        }
    }

    /// Processes one click at pixel `(x, y)`, exactly as `step` describes.
    pub fn handle_click(&mut self, x: i32, y: i32)
        requires
            game_wf(old(self)@),
        ensures
            game_wf(final(self)@),
            final(self)@ == step(old(self)@, x as int, y as int),
    {
        if self.winner.is_some() {
            return;
        }
        let target = crate::pixel_math::screen_to_board(x, y);
        let (i, j) = match target {
            None => { return; },
            Some(c) => c,
        };
        if self.board.get(i, j).is_some() {
            return;
        }
        let turn = self.current_turn;
        self.board.place(i, j, turn);
        match find_winner(&self.board, i, j) {
            Some(win) => {
                self.winner = Some(win);
                self.message = Some(winner_message(win.piece));
            },
            None => {
                self.current_turn = match self.current_turn {
                    Piece::X => Piece::O,
                    Piece::O => Piece::X,
                };
            },
        }
    }

    /// The cell in column `i`, row `j`.
    pub fn cell(&self, i: u16, j: u16) -> (r: Option<Piece>)
        requires
            game_wf(self@),
            i < 3,
            j < 3,
        ensures
            r == self@.cells[i as int][j as int],
    {
        self.board.get(i, j)
    }

    /// The board, for rendering.
    pub fn board(&self) -> (r: &Board)
        ensures
            r@ == self@.cells,
    {
        &self.board
    }

    /// The piece that moves next; frozen once the game is won.
    pub fn current_turn(&self) -> (r: Piece)
        ensures
            r == self@.turn,
    {
        self.current_turn
    }

    /// The recorded winner, if a line has been completed.
    pub fn winner(&self) -> (r: Option<Winner>)
        ensures
            r == self@.winner,
    {
        self.winner
    }

    /// The outcome message, present exactly while a winner is recorded.
    pub fn message(&self) -> (r: &Option<String>)
        ensures
            match r {
                Some(m) => self@.message == Some(m@),
                None => self@.message is None,
            },
    {
        &self.message
    }
}

/// A step keeps the game well formed.
pub proof fn lemma_step_preserves_wf(v: GameView, x: int, y: int)
    requires
        game_wf(v),
    ensures
        game_wf(step(v, x, y)),
{
    if v.winner is None {
        match screen_to_board_spec(x, y) {
            Some(c) => {
                let i = c.0 as int;
                let j = c.1 as int;
                if v.cells[i][j] is None {
                    let cells2 = v.cells.update(i, v.cells[i].update(j, Some(v.turn)));
                    assert(forall|k: int| 0 <= k < 3 ==> (#[trigger] cells2[k]).len() == 3);
                    lemma_winner_spec_wf(cells2, i, j);
                }
            },
            None => {},
        }
    }
}

/// A click outside the drawable square changes nothing: not the board, not
/// the turn, not the winner, not the message.
pub proof fn lemma_outside_click_is_noop(v: GameView, x: int, y: int)
    requires
        screen_to_board_spec(x, y) is None,
    ensures
        step(v, x, y) == v,
{
}

/// Once the game is won, any further click, valid or not, changes nothing:
/// no board mutation, no winner change, no turn change, no message change.
pub proof fn lemma_click_after_win_is_noop(v: GameView, x: int, y: int)
    requires
        v.winner is Some,
    ensures
        step(v, x, y) == v,
{
}

/// No click ever changes an occupied cell: once placed, a piece stays.
pub proof fn lemma_occupied_cell_is_stable(v: GameView, x: int, y: int, i: int, j: int)
    requires
        game_wf(v),
        0 <= i < 3,
        0 <= j < 3,
        v.cells[i][j] is Some,
    ensures
        step(v, x, y).cells[i][j] == v.cells[i][j],
{
}

/// Clicking the same pixel twice never changes the occupant of its cell
/// after the first click: either the first click placed a piece there, which
/// then stays, or the state did not change at all.
pub proof fn lemma_second_click_keeps_occupant(v: GameView, x: int, y: int, i: u16, j: u16)
    requires
        game_wf(v),
        screen_to_board_spec(x, y) == Some((i, j)),
    ensures
        step(step(v, x, y), x, y).cells[i as int][j as int] == step(v, x, y).cells[i as int][
            j as int
        ],
{
    lemma_step_preserves_wf(v, x, y);
    let v1 = step(v, x, y);
    if v1.winner is None && v1.cells[i as int][j as int] is Some {
        lemma_occupied_cell_is_stable(v1, x, y, i as int, j as int);
    }
}

/// The turn toggles exactly when a piece is placed and the placement does
/// not produce a winner; on every other click, and always once the game is
/// won, the turn stays.
pub proof fn lemma_turn_toggles_on_nonwinning_placement(v: GameView, x: int, y: int)
    requires
        game_wf(v),
    ensures
        click_places(v, x, y) && step(v, x, y).winner is None ==> step(v, x, y).turn
            == other_piece(v.turn),
        !(click_places(v, x, y) && step(v, x, y).winner is None) ==> step(v, x, y).turn == v.turn,
{
}

} // verus!
