use tic_tac_toe::board::Piece;
use tic_tac_toe::game::GameState;
use tic_tac_toe::pixel_math::board_to_pixel_center;
use tic_tac_toe::winner::Winner;

fn click_cell(s: &mut GameState, i: u16, j: u16) {
    let (x, y) = board_to_pixel_center(i, j);
    s.handle_click(x, y);
}

#[test]
fn a_fresh_game_starts_empty_with_x_to_move() {
    let s = GameState::new();
    for i in 0u16..3 {
        for j in 0u16..3 {
            assert_eq!(s.cell(i, j), None);
        }
    }
    assert_eq!(s.current_turn(), Piece::X);
    assert_eq!(s.winner(), None);
    assert!(s.message().is_none());
}

#[test]
fn clicking_the_same_cell_twice_keeps_the_first_occupant() {
    let mut s = GameState::new();
    click_cell(&mut s, 1, 1);
    assert_eq!(s.cell(1, 1), Some(Piece::X));
    assert_eq!(s.current_turn(), Piece::O);
    // the second click is rejected silently: no placement, no turn change
    click_cell(&mut s, 1, 1);
    assert_eq!(s.cell(1, 1), Some(Piece::X));
    assert_eq!(s.current_turn(), Piece::O);
}

#[test]
fn each_legal_placement_toggles_the_turn_once() {
    let mut s = GameState::new();
    assert_eq!(s.current_turn(), Piece::X);
    click_cell(&mut s, 0, 0);
    assert_eq!(s.current_turn(), Piece::O);
    click_cell(&mut s, 1, 1);
    assert_eq!(s.current_turn(), Piece::X);
    click_cell(&mut s, 2, 0);
    assert_eq!(s.current_turn(), Piece::O);
}

#[test]
fn a_click_outside_the_board_changes_nothing() {
    let mut s = GameState::new();
    s.handle_click(0, 0);
    s.handle_click(100, 300);
    s.handle_click(-20, 700);
    for i in 0u16..3 {
        for j in 0u16..3 {
            assert_eq!(s.cell(i, j), None);
        }
    }
    assert_eq!(s.current_turn(), Piece::X);
    assert_eq!(s.winner(), None);
}

#[test]
fn a_row_win_is_recorded_with_its_message() {
    let mut s = GameState::new();
    click_cell(&mut s, 0, 0); // X
    click_cell(&mut s, 0, 1); // O
    click_cell(&mut s, 1, 0); // X
    click_cell(&mut s, 0, 2); // O
    assert_eq!(s.winner(), None);
    click_cell(&mut s, 2, 0); // X completes row 0
    assert_eq!(
        s.winner(),
        Some(Winner { piece: Piece::X, start: (0, 0), end: (2, 0) })
    );
    assert_eq!(
        s.message().as_ref().map(|m| m.as_str()),
        Some("X rides high above the clouds")
    );
    // the turn freezes on the winning placement
    assert_eq!(s.current_turn(), Piece::X);
}

#[test]
fn a_diagonal_win_is_found_whatever_the_last_move() {
    // X takes the main diagonal, ending on the center
    let mut s = GameState::new();
    click_cell(&mut s, 0, 0); // X
    click_cell(&mut s, 1, 0); // O
    click_cell(&mut s, 2, 2); // X
    click_cell(&mut s, 2, 1); // O
    click_cell(&mut s, 1, 1); // X completes the diagonal
    assert_eq!(
        s.winner(),
        Some(Winner { piece: Piece::X, start: (0, 0), end: (2, 2) })
    );

    // the same diagonal, ending on a corner
    let mut t = GameState::new();
    click_cell(&mut t, 1, 1); // X
    click_cell(&mut t, 1, 0); // O
    click_cell(&mut t, 0, 0); // X
    click_cell(&mut t, 2, 1); // O
    click_cell(&mut t, 2, 2); // X completes the diagonal
    assert_eq!(
        t.winner(),
        Some(Winner { piece: Piece::X, start: (0, 0), end: (2, 2) })
    );
}

#[test]
fn an_o_win_carries_the_o_message() {
    let mut s = GameState::new();
    click_cell(&mut s, 0, 0); // X
    click_cell(&mut s, 0, 1); // O
    click_cell(&mut s, 1, 0); // X
    click_cell(&mut s, 1, 1); // O
    click_cell(&mut s, 2, 2); // X
    click_cell(&mut s, 2, 1); // O completes row 1
    assert_eq!(
        s.winner(),
        Some(Winner { piece: Piece::O, start: (0, 1), end: (2, 1) })
    );
    assert_eq!(
        s.message().as_ref().map(|m| m.as_str()),
        Some("O expands its kingdom beyond the horizon")
    );
}

#[test]
fn once_won_every_further_click_is_ignored() {
    let mut s = GameState::new();
    click_cell(&mut s, 0, 0); // X
    click_cell(&mut s, 0, 1); // O
    click_cell(&mut s, 1, 0); // X
    click_cell(&mut s, 0, 2); // O
    click_cell(&mut s, 2, 0); // X wins row 0
    let won = s.winner();
    assert!(won.is_some());

    // a click on an empty cell, on an occupied cell, and off the board
    click_cell(&mut s, 2, 2);
    click_cell(&mut s, 0, 0);
    s.handle_click(0, 0);

    assert_eq!(s.cell(2, 2), None);
    assert_eq!(s.cell(0, 0), Some(Piece::X));
    assert_eq!(s.winner(), won);
    assert_eq!(s.current_turn(), Piece::X);
    assert_eq!(
        s.message().as_ref().map(|m| m.as_str()),
        Some("X rides high above the clouds")
    );
}
