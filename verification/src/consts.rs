//! Fixed configuration of the game: board dimensions, spawn point,
//! timing delays and the scoring formula bases.

use vstd::prelude::*;

verus! {

/// Width of the game board (in segments).
pub const BOARD_WIDTH: usize = 10;

/// Height of the visible game board (in segments).
pub const BOARD_HEIGHT: usize = 20;

/// Rows the grid keeps above the visible board, for a piece that locks
/// while still hanging in from spawn.
pub const GRID_ROWS: usize = 24;

/// The piece spawn X coordinate, in board coordinates.
pub const PIECE_SPAWN_XP: i32 = 4;

/// The piece spawn Y coordinate, in board coordinates.
pub const PIECE_SPAWN_YP: i32 = 18;

/// The delay between movements when holding a side movement key down.
pub const MOVE_DELAY_US: u64 = 125_000;

/// The delay between movements when holding the down key.
pub const DROP_DELAY_US: u64 = 50_000;

/// The delay between gravity steps at the starting speed.
pub const FALL_DELAY_US: u64 = 1_000_000;

/// The amount of score rewarded per cell of manual soft drop at level 0.
pub const PLACE_SCORE_BASE: usize = 1;

/// The amount of score rewarded for a single cleared line at level 0.
pub const LINE_SCORE_BASE: usize = 50;

/// The line-score multiplier used in place of the line count when four
/// lines clear at once.
pub const TETRIS_MULTIPLIER: usize = 26;

/// The amount of lines that must be cleared in order to progress to the
/// next level.
pub const LINES_PER_LEVEL: usize = 10;

} // verus!
