//! A two-player tic-tac-toe game core, verified: the 3x3 board, turn
//! handling, win detection with wrap-around row and column adjacency, the
//! mapping between canvas pixels and board cells, and the drawable geometry
//! for a renderer. A windowing shell delivers mouse clicks and draws the
//! shapes; everything it needs to decide or describe comes from here.

pub mod board;
pub mod game;
pub mod game_math;
pub mod pixel_math;
pub mod render;
pub mod winner;
