//! The player: where it is and how fast it falls.
use vstd::prelude::*;
use crate::draw::{Cell, Colour};
use crate::{FLAP_VELOCITY, GRAVITY, TERMINAL_VELOCITY};

verus! {

/// The player. `x` is its column in the world, `y` its row on the screen and
/// `velocity` its vertical speed in hundredths of a row per physics step;
/// positive is downward.
#[derive(Clone, Copy, Debug, PartialEq, Eq)]
pub struct Player {
    pub x: i32,
    pub y: i32,
    pub velocity: i32,
}

/// The speed after gravity has pulled once: a speed below the terminal one
/// grows by the fixed increment, any other stays.
pub open spec fn spec_pulled(velocity: int) -> int {
    if velocity < TERMINAL_VELOCITY {
        velocity + GRAVITY
    } else {
        velocity
    }
}

/// The whole rows in a speed: the hundredths cut off, towards zero.
pub open spec fn spec_whole_rows(velocity: int) -> int {
    if velocity >= 0 {
        velocity / 100
    } else {
        -((-velocity) / 100)
    }
}

impl Player {
    /// The glyph that stands for the player.
    pub const GLYPH: char = '?';

    /// Whether a physics step keeps both coordinates within `i32`.
    pub open spec fn can_move(&self) -> bool {
        &&& self.x < i32::MAX
        &&& i32::MIN <= self.y + spec_whole_rows(spec_pulled(self.velocity as int)) <= i32::MAX
    }

    /// The player after one physics step.
    pub open spec fn spec_moved(&self) -> Player {
        let velocity = spec_pulled(self.velocity as int);
        let y = self.y + spec_whole_rows(velocity);
        Player {
            x: (self.x + 1) as i32,
            y: if y < 0 { 0i32 } else { y as i32 },
            velocity: velocity as i32,
        }
    }

    /// The player after a flap.
    pub open spec fn spec_flapped(&self) -> Player {
        Player { x: self.x, y: self.y, velocity: FLAP_VELOCITY }
    }

    /// The cell that shows the player.
    pub open spec fn spec_cell(&self) -> Cell {
        Cell { x: 0, y: self.y, fg: Colour::White, bg: Colour::Orange, glyph: Self::GLYPH }
    }

    /// Tells whether a physics step keeps both coordinates within `i32`.
    pub fn move_fits(&self) -> (fits: bool)
        ensures
            fits == self.can_move(),
    {
        let velocity: i32 = if self.velocity < TERMINAL_VELOCITY {
            self.velocity + GRAVITY
        } else {
            self.velocity
        };
        let y: i64 = self.y as i64 + (velocity / 100) as i64;
        self.x < i32::MAX && i32::MIN as i64 <= y && y <= i32::MAX as i64
    }

    /// A player at rest at the given place.
    pub fn new(x: i32, y: i32) -> (player: Player)
        ensures
            player == (Player { x, y, velocity: 0 }),
    {
        Player { x, y, velocity: 0 }
    }

    /// One physics step: gravity pulls, the player falls by the whole rows of
    /// its speed, stops at the top row, and moves one column on.
    pub fn gravity_and_move(&mut self)
        requires
            old(self).can_move(),
        ensures
            *final(self) == old(self).spec_moved(),
            final(self).y >= 0,
            final(self).x == old(self).x + 1,
            old(self).velocity >= TERMINAL_VELOCITY ==> final(self).velocity == old(self).velocity,
            old(self).velocity < TERMINAL_VELOCITY ==> final(self).velocity == old(self).velocity
                + GRAVITY,
            final(self).velocity <= old(self).velocity || final(self).velocity < TERMINAL_VELOCITY
                + GRAVITY,
    {
        if self.velocity < TERMINAL_VELOCITY {
            self.velocity += GRAVITY;
        }
        self.y += self.velocity / 100;
        if self.y < 0 {
            self.y = 0;
        }
        self.x += 1;
    }

    /// Sets the speed to the upward impulse, whatever it was.
    pub fn flap(&mut self)
        ensures
            *final(self) == old(self).spec_flapped(),
            final(self).velocity == FLAP_VELOCITY,
    {
        self.velocity = FLAP_VELOCITY;
    }

    /// The player's glyph, in the first column at the player's row.
    pub fn render(&self) -> (cell: Cell)
        ensures
            cell == self.spec_cell(),
    {
        Cell { x: 0, y: self.y, fg: Colour::White, bg: Colour::Orange, glyph: Self::GLYPH }
    }
}

/// Gravity never lifts a speed over the terminal one, except from the last
/// stretch below it: a speed that is not within one increment under the
/// terminal speed is, after a pull, either at most the terminal speed or what
/// it was.
pub proof fn pull_stops_at_terminal_velocity(velocity: int)
    requires
        !(TERMINAL_VELOCITY - GRAVITY < velocity < TERMINAL_VELOCITY),
    ensures
        spec_pulled(velocity) <= TERMINAL_VELOCITY || spec_pulled(velocity) == velocity,
{
}

/// Whatever the speed, a pull leaves it under the terminal speed plus one
/// increment or leaves it as it was, and a step never leaves the player above
/// the top row.
pub proof fn step_bounds_speed_and_row(player: Player)
    requires
        player.can_move(),
    ensures
        spec_pulled(player.velocity as int) < TERMINAL_VELOCITY + GRAVITY || spec_pulled(
            player.velocity as int,
        ) == player.velocity,
        player.spec_moved().y >= 0,
{
}

} // verus!
