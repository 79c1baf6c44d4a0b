//! The simulation behind a side-scrolling arcade game: a player that falls
//! and flaps, one obstacle with a gap to fly through, and the session that
//! moves between the menu, play and the game-over screen.
//!
//! Nothing here draws or reads input. Every handler takes the time that has
//! passed and the key that was pressed, changes the session, and hands back the
//! drawing commands for the host to carry out.
//!
//! Vertical speed is kept in hundredths of a row per physics step and time in
//! microseconds, so that all arithmetic is on integers.
use vstd::prelude::*;

pub mod draw;
pub mod obstacle;
pub mod player;
pub mod random;
pub mod state;

verus! {

/// Width of the screen in columns.
pub const SCREEN_WIDTH: i32 = 80;

/// Height of the screen in rows.
pub const SCREEN_HEIGHT: i32 = 50;

/// Time between two physics steps, in microseconds.
pub const FRAME_DURATION: u64 = 30_000;

/// What a physics step adds to the vertical speed, in hundredths of a row.
pub const GRAVITY: i32 = 15;

/// The speed from which gravity no longer pulls, in hundredths of a row.
pub const TERMINAL_VELOCITY: i32 = 100;

/// The vertical speed right after a flap, in hundredths of a row.
pub const FLAP_VELOCITY: i32 = -150;

/// The column at which a session starts.
pub const START_X: i32 = 5;

/// The row at which a session starts.
pub const START_Y: i32 = 25;

/// The lowest row that the centre of a gap can have.
pub const GAP_Y_MIN: i32 = 5;

/// The first row above every possible centre of a gap.
pub const GAP_Y_END: i32 = 40;

/// The widest gap, met at score zero.
pub const GAP_SIZE_MAX: i32 = 20;

/// The narrowest gap.
pub const GAP_SIZE_MIN: i32 = 2;

} // verus!
