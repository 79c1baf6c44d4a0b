//! The obstacle: a wall over the whole height of the screen with one gap.
use vstd::prelude::*;
use crate::draw::{Cell, Colour};
use crate::player::Player;
use crate::random::{draw_in_range, fresh_generator};
use crate::{GAP_SIZE_MAX, GAP_SIZE_MIN, GAP_Y_END, GAP_Y_MIN, SCREEN_HEIGHT};

verus! {

/// The obstacle. `x` is its column in the world, `gap_y` the row at the
/// centre of its gap and `size` the height of the gap.
#[derive(Clone, Copy, Debug, PartialEq, Eq)]
pub struct Obstacle {
    pub x: i32,
    pub gap_y: i32,
    pub size: i32,
}

/// The height of the gap at a score: it shrinks by one row for each point
/// and never goes under the narrowest gap.
pub open spec fn spec_gap_size(score: int) -> int {
    if GAP_SIZE_MAX - score > GAP_SIZE_MIN {
        GAP_SIZE_MAX - score
    } else {
        GAP_SIZE_MIN as int
    }
}

/// Half of a size, cut off towards zero.
pub open spec fn spec_half(size: int) -> int {
    if size >= 0 {
        size / 2
    } else {
        -((-size) / 2)
    }
}

impl Obstacle {
    /// The glyph that a wall is made of.
    pub const GLYPH: char = '|';

    /// The first row of the gap.
    pub open spec fn spec_gap_top(&self) -> int {
        self.gap_y - spec_half(self.size as int)
    }

    /// The last row of the gap.
    pub open spec fn spec_gap_bottom(&self) -> int {
        self.gap_y + spec_half(self.size as int)
    }

    /// Whether both ends of the gap are rows within `i32`.
    pub open spec fn gap_fits(&self) -> bool {
        &&& i32::MIN <= self.spec_gap_top() <= i32::MAX
        &&& i32::MIN <= self.spec_gap_bottom() <= i32::MAX
    }

    /// Whether the obstacle can be drawn for a player at `player_x`: the gap
    /// fits, and so does the obstacle's column on the screen.
    pub open spec fn can_render(&self, player_x: i32) -> bool {
        self.gap_fits() && i32::MIN <= self.x - player_x <= i32::MAX
    }

    /// The cell of the upper wall at a row.
    pub open spec fn spec_upper_cell(&self, player_x: i32, row: int) -> Cell {
        Cell {
            x: (self.x - player_x) as i32,
            y: row as i32,
            fg: Colour::Green,
            bg: Colour::Black,
            glyph: Self::GLYPH,
        }
    }

    /// The cell of the lower wall at a row.
    pub open spec fn spec_lower_cell(&self, player_x: i32, row: int) -> Cell {
        Cell {
            x: (self.x - player_x) as i32,
            y: row as i32,
            fg: Colour::Pink,
            bg: Colour::BlueViolet,
            glyph: Self::GLYPH,
        }
    }

    /// The upper wall: every row from the top of the screen that lies above
    /// the gap, from the top down.
    pub open spec fn spec_upper_wall(&self, player_x: i32) -> Seq<Cell> {
        let rows = if self.spec_gap_top() > 0 { self.spec_gap_top() } else { 0 };
        Seq::new(rows as nat, |i: int| self.spec_upper_cell(player_x, i))
    }

    /// The lower wall: every row below the gap down to the last row of the
    /// screen, from the gap down.
    pub open spec fn spec_lower_wall(&self, player_x: i32) -> Seq<Cell> {
        let first = self.spec_gap_bottom() + 1;
        let rows = if first < SCREEN_HEIGHT { SCREEN_HEIGHT - first } else { 0 };
        Seq::new(rows as nat, |i: int| self.spec_lower_cell(player_x, first + i))
    }

    /// All cells of the obstacle as seen by a player at `player_x`: the upper
    /// wall, then the lower wall. The rows of the gap have no cell.
    pub open spec fn spec_walls(&self, player_x: i32) -> Seq<Cell> {
        self.spec_upper_wall(player_x) + self.spec_lower_wall(player_x)
    }

    /// Whether a player has run into a wall: it is in the obstacle's column
    /// and its row is outside the gap.
    pub open spec fn spec_hit(&self, player: Player) -> bool {
        player.x == self.x && (player.y < self.spec_gap_top() || player.y > self.spec_gap_bottom())
    }

    /// The obstacle at column `x` for a score, with the gap centred on `gap_y`.
    pub open spec fn spec_with_gap(x: i32, gap_y: i32, score: i32) -> Obstacle {
        Obstacle { x, gap_y, size: spec_gap_size(score as int) as i32 }
    }

    /// Tells whether the obstacle can be drawn for a player at `player_x`;
    /// a column outside `i32` is no player's.
    pub fn render_fits(&self, player_x: i64) -> (fits: bool)
        ensures
            fits == (i32::MIN <= player_x <= i32::MAX && self.can_render(player_x as i32)),
    {
        if player_x < i32::MIN as i64 || player_x > i32::MAX as i64 {
            return false;
        }
        let half_size: i64 = (self.size / 2) as i64;
        let top: i64 = self.gap_y as i64 - half_size;
        let bottom: i64 = self.gap_y as i64 + half_size;
        let screen_x: i64 = self.x as i64 - player_x;
        i32::MIN as i64 <= top && top <= i32::MAX as i64 && i32::MIN as i64 <= bottom && bottom
            <= i32::MAX as i64 && i32::MIN as i64 <= screen_x && screen_x <= i32::MAX as i64
    }

    /// A random row for the centre of a gap, from a generator made for this
    /// one draw.
    pub fn random_gap() -> (gap_y: i32)
        ensures
            GAP_Y_MIN <= gap_y < GAP_Y_END,
    {
        let mut generator = fresh_generator();
        draw_in_range(&mut generator, GAP_Y_MIN, GAP_Y_END)
    }

    /// An obstacle at column `x` whose gap is centred on a random row and is
    /// as high as the score allows.
    pub fn new(x: i32, score: i32) -> (obstacle: Obstacle)
        requires
            GAP_SIZE_MAX - score <= i32::MAX,
        ensures
            obstacle == Obstacle::spec_with_gap(x, obstacle.gap_y, score),
            GAP_Y_MIN <= obstacle.gap_y < GAP_Y_END,
            obstacle.x == x,
            obstacle.size == spec_gap_size(score as int),
            obstacle.size >= GAP_SIZE_MIN,
    {
        Obstacle::with_gap(x, Obstacle::random_gap(), score)
    }

    /// An obstacle at column `x` whose gap is centred on `gap_y` and is as
    /// high as the score allows.
    pub fn with_gap(x: i32, gap_y: i32, score: i32) -> (obstacle: Obstacle)
        requires
            GAP_SIZE_MAX - score <= i32::MAX,
        ensures
            obstacle == Obstacle::spec_with_gap(x, gap_y, score),
            obstacle.size == spec_gap_size(score as int),
            obstacle.size >= GAP_SIZE_MIN,
    {
        let narrowed: i32 = GAP_SIZE_MAX - score;
        let size: i32 = if narrowed > GAP_SIZE_MIN { narrowed } else { GAP_SIZE_MIN };
        Obstacle { x, gap_y, size }
    }

    /// The cells of both walls as seen by a player at `player_x`.
    pub fn render(&self, player_x: i32) -> (cells: Vec<Cell>)
        requires
            self.can_render(player_x),
        ensures
            cells@ == self.spec_walls(player_x),
    {
        let screen_x: i32 = self.x - player_x;
        let half_size: i32 = self.size / 2;
        let top: i32 = self.gap_y - half_size;
        let bottom: i32 = self.gap_y + half_size;
        let mut cells: Vec<Cell> = Vec::new();
        let mut y: i32 = 0;
        while y < top
            invariant
                0 <= y,
                y <= top || y == 0,
                top == self.spec_gap_top(),
                screen_x == self.x - player_x,
                cells@ == Seq::new(y as nat, |i: int| self.spec_upper_cell(player_x, i)),
            decreases top - y,
        {
            cells.push(
                Cell { x: screen_x, y, fg: Colour::Green, bg: Colour::Black, glyph: Self::GLYPH },
            );
            y += 1;
            proof {
                assert(cells@ =~= Seq::new(y as nat, |i: int| self.spec_upper_cell(player_x, i)));
            }
        }
        proof {
            assert(cells@ =~= self.spec_upper_wall(player_x));
        }
        if bottom < SCREEN_HEIGHT - 1 {
            let first: i32 = bottom + 1;
            let mut y: i32 = first;
            while y < SCREEN_HEIGHT
                invariant
                    first <= y <= SCREEN_HEIGHT,
                    first == self.spec_gap_bottom() + 1,
                    screen_x == self.x - player_x,
                    cells@ == self.spec_upper_wall(player_x) + Seq::new(
                        (y - first) as nat,
                        |i: int| self.spec_lower_cell(player_x, first + i),
                    ),
                decreases SCREEN_HEIGHT - y,
            {
                cells.push(
                    Cell {
                        x: screen_x,
                        y,
                        fg: Colour::Pink,
                        bg: Colour::BlueViolet,
                        glyph: Self::GLYPH,
                    },
                );
                y += 1;
                proof {
                    assert(cells@ =~= self.spec_upper_wall(player_x) + Seq::new(
                        (y - first) as nat,
                        |i: int| self.spec_lower_cell(player_x, first + i),
                    ));
                }
            }
        }
        proof {
            assert(cells@ =~= self.spec_walls(player_x));
        }
        cells
    }

    /// Whether the player has run into a wall.
    pub fn hit_obstacle(&self, player: &Player) -> (hit: bool)
        requires
            self.gap_fits(),
        ensures
            hit == self.spec_hit(*player),
            hit <==> player.x == self.x && !(self.gap_y - spec_half(self.size as int) <= player.y
                <= self.gap_y + spec_half(self.size as int)),
    {
        let half_size: i32 = self.size / 2;
        let does_x_match = player.x == self.x;
        let player_above_gap = player.y < self.gap_y - half_size;
        let player_below_gap = player.y > self.gap_y + half_size;
        does_x_match && (player_above_gap || player_below_gap)
    }
}

/// The gap is never under the narrowest one, is the widest one at score zero,
/// and loses one row for each point until the narrowest is reached.
pub proof fn gap_size_is_floored(score: int)
    ensures
        spec_gap_size(score) >= GAP_SIZE_MIN,
        spec_gap_size(score) == if GAP_SIZE_MAX - score >= GAP_SIZE_MIN {
            GAP_SIZE_MAX - score
        } else {
            GAP_SIZE_MIN as int
        },
        score >= GAP_SIZE_MAX - GAP_SIZE_MIN ==> spec_gap_size(score) == GAP_SIZE_MIN,
{
}

/// No cell of a wall lies in a row of the gap, so a player whose row has a
/// wall cell in the obstacle's column has hit it, and the other way round for
/// the rows on the screen.
pub proof fn walls_are_where_the_player_hits(obstacle: Obstacle, player: Player)
    requires
        obstacle.can_render(player.x),
        0 <= player.y < SCREEN_HEIGHT,
        player.x == obstacle.x,
    ensures
        obstacle.spec_hit(player) <==> exists|i: int|
            0 <= i < obstacle.spec_walls(player.x).len() && (#[trigger] obstacle.spec_walls(
                player.x,
            )[i]).y == player.y,
{
    let walls = obstacle.spec_walls(player.x);
    let upper = obstacle.spec_upper_wall(player.x);
    let lower = obstacle.spec_lower_wall(player.x);
    let first = obstacle.spec_gap_bottom() + 1;
    if obstacle.spec_hit(player) {
        if player.y < obstacle.spec_gap_top() {
            assert(walls[player.y as int].y == player.y);
        } else {
            let i = upper.len() + (player.y - first);
            assert(walls[i] == lower[player.y - first]);
            assert(walls[i].y == player.y);
        }
    }
    if exists|i: int| 0 <= i < walls.len() && (#[trigger] walls[i]).y == player.y {
        let i = choose|i: int| 0 <= i < walls.len() && (#[trigger] walls[i]).y == player.y;
        if i < upper.len() {
            assert(walls[i] == upper[i]);
        } else {
            assert(walls[i] == lower[i - upper.len()]);
        }
    }
}

} // verus!
