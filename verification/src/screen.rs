//! The dimensions of the playing field and the pace of the simulation.

use vstd::prelude::*;

verus! {

/// Width of the screen in columns; also the distance at which a new obstacle
/// appears ahead of the player.
pub const SCREEN_WIDTH: i32 = 80;

/// Height of the screen in rows. Row 0 is the top.
pub const SCREEN_HEIGHT: i32 = 50;

/// Time between two physics steps, in microseconds.
pub const FRAME_DURATION_US: u32 = 60_000;

/// Column at which a game starts.
pub const START_X: i32 = 5;

/// Row at which a game starts.
pub const START_Y: i32 = 25;

} // verus!
