//! Cardinal directions, world positions and the arena constants.
//!
//! World coordinates are integers (the engine collaborator works in pixels;
//! every bound the core cares about is a whole number of pixels), with the
//! arena centred on the origin.

use vstd::prelude::*;

verus! {

/// Width and height of one terrain tile, in world units.
pub const TILE_SIZE: i32 = 32;
/// Number of tile rows in the arena.
pub const LEVEL_ROWS: i32 = 18;
/// Number of tile columns in the arena.
pub const LEVEL_COLUMNS: i32 = 27;
/// Side length of a tank sprite, in world units.
pub const TANK_SIZE: i32 = 28;

/// Half the arena width: tiles live at x in [-ARENA_HALF_WIDTH, ARENA_HALF_WIDTH].
pub const ARENA_HALF_WIDTH: i32 = 432;
/// Half the arena height.
pub const ARENA_HALF_HEIGHT: i32 = 288;

/// One of the four cardinal movement directions; diagonal movement does not
/// exist in this game.
#[derive(Debug, Clone, Copy, PartialEq, Eq, Structural)]
pub enum Direction {
    Left,
    Right,
    Up,
    Down,
}

/// A position in world coordinates.
#[derive(Debug, Clone, Copy, PartialEq, Eq, Structural)]
pub struct Pos {
    pub x: i32,
    pub y: i32,
}

/// Where `p` ends up after moving `dist` world units towards `dir`,
/// before clamping to the representable range.
pub open spec fn spec_moved(p: Pos, dir: Direction, dist: int) -> (int, int) {
    match dir {
        Direction::Left => (p.x - dist, p.y as int),
        Direction::Right => (p.x + dist, p.y as int),
        Direction::Up => (p.x as int, p.y + dist),
        Direction::Down => (p.x as int, p.y - dist),
    }
}

/// `v` clamped into the inclusive range `[lo, hi]`.
pub open spec fn spec_clamp_range(v: int, lo: int, hi: int) -> int {
    if v < lo {
        lo
    } else if v > hi {
        hi
    } else {
        v
    }
}

/// `v` clamped into the `i32` range.
pub open spec fn spec_clamp_i32(v: int) -> int {
    if v < i32::MIN as int {
        i32::MIN as int
    } else if v > i32::MAX as int {
        i32::MAX as int
    } else {
        v
    }
}

/// Saturating conversion of a 64-bit intermediate back to a coordinate.
pub fn clamp_i32(v: i64) -> (r: i32)
    ensures
        r as int == spec_clamp_i32(v as int),
{
    if v < i32::MIN as i64 {
        i32::MIN
    } else if v > i32::MAX as i64 {
        i32::MAX
    } else {
        v as i32
    }
}

impl Pos {
    /// The position `dist` world units towards `dir`, saturating at the edge
    /// of the representable range (never reached in play: the resolver
    /// despawns a projectile at the arena edge long before).
    pub fn moved(self, dir: Direction, dist: i32) -> (r: Pos)
        requires
            0 <= dist,
        ensures
            r.x as int == spec_clamp_i32(spec_moved(self, dir, dist as int).0),
            r.y as int == spec_clamp_i32(spec_moved(self, dir, dist as int).1),
    {
        match dir {
            Direction::Left => Pos { x: clamp_i32(self.x as i64 - dist as i64), y: self.y },
            Direction::Right => Pos { x: clamp_i32(self.x as i64 + dist as i64), y: self.y },
            Direction::Up => Pos { x: self.x, y: clamp_i32(self.y as i64 + dist as i64) },
            Direction::Down => Pos { x: self.x, y: clamp_i32(self.y as i64 - dist as i64) },
        }
    }

    /// Squared Euclidean distance between two positions, exact in `i64`.
    pub open spec fn spec_dist_sq(self, other: Pos) -> int {
        (self.x - other.x) * (self.x - other.x) + (self.y - other.y) * (self.y - other.y)
    }

    /// Whether the two positions are strictly closer than `limit` world
    /// units, compared on squared distances so that no rounding occurs.
    pub fn closer_than(self, other: Pos, limit: i32) -> (r: bool)
        requires
            0 <= limit,
        ensures
            r <==> self.spec_dist_sq(other) < limit * limit,
    {
        let dx: i128 = self.x as i128 - other.x as i128;
        let dy: i128 = self.y as i128 - other.y as i128;
        let lim: i128 = limit as i128;
        proof {
            assert(0 <= dx * dx <= 0x1_0000_0000_0000_0000i128) by (nonlinear_arith)
                requires
                    -0x1_0000_0000i128 <= dx <= 0x1_0000_0000i128,
            ;
            assert(0 <= dy * dy <= 0x1_0000_0000_0000_0000i128) by (nonlinear_arith)
                requires
                    -0x1_0000_0000i128 <= dy <= 0x1_0000_0000i128,
            ;
            assert(0 <= lim * lim <= 0x1_0000_0000_0000_0000i128) by (nonlinear_arith)
                requires
                    0 <= lim <= 0x1_0000_0000i128,
            ;
        }
        dx * dx + dy * dy < lim * lim
    }

    /// Coordinate-wise clamp of the position into the arena rectangle.
    pub fn clamped_to_arena(self) -> (r: Pos)
        ensures
            r.x as int == spec_clamp_range(
                self.x as int,
                -ARENA_HALF_WIDTH as int,
                ARENA_HALF_WIDTH as int,
            ),
            r.y as int == spec_clamp_range(
                self.y as int,
                -ARENA_HALF_HEIGHT as int,
                ARENA_HALF_HEIGHT as int,
            ),
    {
        let x = if self.x < -ARENA_HALF_WIDTH {
            -ARENA_HALF_WIDTH
        } else if self.x > ARENA_HALF_WIDTH {
            ARENA_HALF_WIDTH
        } else {
            self.x
        };
        let y = if self.y < -ARENA_HALF_HEIGHT {
            -ARENA_HALF_HEIGHT
        } else if self.y > ARENA_HALF_HEIGHT {
            ARENA_HALF_HEIGHT
        } else {
            self.y
        };
        Pos { x, y }
    }
}

} // verus!
