//! Core of a falling-block puzzle game: a catalog of seven tetromino
//! shapes with discrete rotation variants, an active falling piece, a
//! fixed 10 x 20 grid of cells, the collision and freezing rules over
//! that grid, and the per-tick state machine that moves, lands and
//! respawns pieces.

pub mod game;
pub mod ioscreen;
pub mod piece;
pub mod shapes;

use vstd::prelude::*;

verus! {

/// Width of the playing field, in cells.
pub const GLASS_WIDTH: usize = 10;

/// Height of the playing field, in cells.
pub const GLASS_HEIGHT: usize = 20;

/// Number of cells in the playing field.
pub const GLASS_AREA: usize = GLASS_WIDTH * GLASS_HEIGHT;

/// Width of the character canvas the game draws on.
pub const GAME_CANVAS_WIDTH: usize = 80;

/// Height of the character canvas the game draws on.
pub const GAME_CANVAS_HEIGHT: usize = 25;

} // verus!
