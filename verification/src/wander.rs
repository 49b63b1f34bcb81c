//! The enemy wander algorithm: keep driving until the direction-change
//! timer runs out, then scan the nearby terrain for open directions and
//! draw a new one at random, weighted Up 1 : Left 2 : Right 2 : Down 4.
//! The draw is taken over the feasible directions' weights, which gives
//! each feasible direction the same probability as re-rolling a nine-sided
//! draw until it lands on a feasible one.

use vstd::prelude::*;
use crate::entities::{
    Combatant, ENEMY_DIRECTION_INTERVAL_MS, ENEMY_SPEED, MAX_TICK_MS,
};
use crate::bullets::{spec_travel, travel};
use crate::geom::{spec_clamp_i32, spec_moved, Direction, Pos, TILE_SIZE};
use crate::session::GameSession;
use crate::state::AppState;
use crate::terrain::{LevelItem, Tile};

verus! {

/// How close (on either axis) a tile must sit to count as blocking a turn:
/// half a tank plus half a tile, less a small tolerance.
pub const TURN_CLEARANCE: i32 = 25;

/// The set of directions a tank can currently move in, built by scanning
/// nearby terrain.
#[derive(Debug, Clone, Copy, PartialEq, Eq, Structural)]
pub struct Movable {
    pub can_up: bool,
    pub can_down: bool,
    pub can_left: bool,
    pub can_right: bool,
}

/// Whether this tile blocks a turn upwards from `p`: it has a collider
/// (anything but a tree), overlaps the tank's column, and sits less than a
/// tile above.
pub open spec fn spec_blocks_up(t: Tile, p: Pos) -> bool {
    let dx = if t.pos.x >= p.x {
        t.pos.x - p.x
    } else {
        p.x - t.pos.x
    };
    &&& t.kind != LevelItem::Tree
    &&& dx < TURN_CLEARANCE
    &&& t.pos.y > p.y
    &&& t.pos.y - p.y < TILE_SIZE
}

/// Whether this tile blocks a turn downwards from `p`.
pub open spec fn spec_blocks_down(t: Tile, p: Pos) -> bool {
    let dx = if t.pos.x >= p.x {
        t.pos.x - p.x
    } else {
        p.x - t.pos.x
    };
    &&& t.kind != LevelItem::Tree
    &&& dx < TURN_CLEARANCE
    &&& t.pos.y < p.y
    &&& p.y - t.pos.y < TILE_SIZE
}

/// Whether this tile blocks a turn to the right from `p`.
pub open spec fn spec_blocks_right(t: Tile, p: Pos) -> bool {
    let dy = if t.pos.y >= p.y {
        t.pos.y - p.y
    } else {
        p.y - t.pos.y
    };
    &&& t.kind != LevelItem::Tree
    &&& dy < TURN_CLEARANCE
    &&& t.pos.x > p.x
    &&& t.pos.x - p.x < TILE_SIZE
}

/// Whether this tile blocks a turn to the left from `p`.
pub open spec fn spec_blocks_left(t: Tile, p: Pos) -> bool {
    let dy = if t.pos.y >= p.y {
        t.pos.y - p.y
    } else {
        p.y - t.pos.y
    };
    &&& t.kind != LevelItem::Tree
    &&& dy < TURN_CLEARANCE
    &&& t.pos.x < p.x
    &&& p.x - t.pos.x < TILE_SIZE
}

/// The feasibility set at `p` against a terrain column: a direction is open
/// when no tile blocks it.
pub open spec fn spec_feasible_moves(tiles: Seq<Tile>, p: Pos) -> Movable {
    Movable {
        can_up: forall|i: int| 0 <= i < tiles.len() ==> !spec_blocks_up(#[trigger] tiles[i], p),
        can_down: forall|i: int| 0 <= i < tiles.len() ==> !spec_blocks_down(#[trigger] tiles[i], p),
        can_left: forall|i: int| 0 <= i < tiles.len() ==> !spec_blocks_left(#[trigger] tiles[i], p),
        can_right: forall|i: int|
            0 <= i < tiles.len() ==> !spec_blocks_right(#[trigger] tiles[i], p),
    }
}

/// Scans the terrain and reports which of the four directions are open
/// from `p`, ignoring trees (they never block).
pub fn feasible_moves(tiles: &Vec<Tile>, p: Pos) -> (m: Movable)
    ensures
        m == spec_feasible_moves(tiles@, p),
{
    let mut can_up = true;
    let mut can_down = true;
    let mut can_left = true;
    let mut can_right = true;
    let mut i: usize = 0;
    while i < tiles.len()
        invariant
            i <= tiles@.len(),
            can_up == forall|j: int| 0 <= j < i ==> !spec_blocks_up(#[trigger] tiles@[j], p),
            can_down == forall|j: int| 0 <= j < i ==> !spec_blocks_down(#[trigger] tiles@[j], p),
            can_left == forall|j: int| 0 <= j < i ==> !spec_blocks_left(#[trigger] tiles@[j], p),
            can_right == forall|j: int| 0 <= j < i ==> !spec_blocks_right(#[trigger] tiles@[j], p),
        decreases tiles@.len() - i,
    {
        let t = tiles[i];
        if t.kind != LevelItem::Tree {
            let dx: i64 = if t.pos.x >= p.x {
                t.pos.x as i64 - p.x as i64
            } else {
                p.x as i64 - t.pos.x as i64
            };
            let dy: i64 = if t.pos.y >= p.y {
                t.pos.y as i64 - p.y as i64
            } else {
                p.y as i64 - t.pos.y as i64
            };
            if dx < (TURN_CLEARANCE as i64) {
                if t.pos.y > p.y && (t.pos.y as i64 - p.y as i64) < (TILE_SIZE as i64) {
                    can_up = false;
                }
                if t.pos.y < p.y && (p.y as i64 - t.pos.y as i64) < (TILE_SIZE as i64) {
                    can_down = false;
                }
            }
            if dy < (TURN_CLEARANCE as i64) {
                if t.pos.x > p.x && (t.pos.x as i64 - p.x as i64) < (TILE_SIZE as i64) {
                    can_right = false;
                }
                if t.pos.x < p.x && (p.x as i64 - t.pos.x as i64) < (TILE_SIZE as i64) {
                    can_left = false;
                }
            }
        }
        i = i + 1;
    }
    Movable { can_up, can_down, can_left, can_right }
}

/// Whether the feasibility set allows moving towards `d`.
pub open spec fn spec_can_go(m: Movable, d: Direction) -> bool {
    match d {
        Direction::Up => m.can_up,
        Direction::Down => m.can_down,
        Direction::Left => m.can_left,
        Direction::Right => m.can_right,
    }
}

/// The wander weight of each direction: Up 1, Left 2, Right 2, Down 4.
pub open spec fn spec_weight(d: Direction) -> int {
    match d {
        Direction::Up => 1,
        Direction::Left => 2,
        Direction::Right => 2,
        Direction::Down => 4,
    }
}

/// Sum of the weights of the feasible directions.
pub open spec fn spec_total_weight(m: Movable) -> int {
    (if m.can_up {
        spec_weight(Direction::Up)
    } else {
        0
    }) + (if m.can_left {
        spec_weight(Direction::Left)
    } else {
        0
    }) + (if m.can_right {
        spec_weight(Direction::Right)
    } else {
        0
    }) + (if m.can_down {
        spec_weight(Direction::Down)
    } else {
        0
    })
}

/// Maps a draw below the total feasible weight to a direction, giving each
/// feasible direction a bucket of its weight's size, in the fixed order
/// Up, Left, Right, Down.
pub open spec fn spec_pick_direction(m: Movable, draw: int) -> Direction {
    let up = if m.can_up {
        1int
    } else {
        0
    };
    let left = if m.can_left {
        2int
    } else {
        0
    };
    let right = if m.can_right {
        2int
    } else {
        0
    };
    if draw < up {
        Direction::Up
    } else if draw < up + left {
        Direction::Left
    } else if draw < up + left + right {
        Direction::Right
    } else {
        Direction::Down
    }
}

/// A draw below the total weight always lands on a feasible direction.
pub proof fn lemma_pick_feasible(m: Movable, draw: int)
    requires
        0 <= draw < spec_total_weight(m),
    ensures
        spec_can_go(m, spec_pick_direction(m, draw)),
{
}

/// Relies on `rand::thread_rng` and `rand::Rng::gen_range`: returns a
/// number drawn uniformly below `n`. Nothing more is promised of a random
/// value than its range. The one random draw of the whole core, shared by
/// the wander turn and the enemy spawn-marker pick.
#[verifier::external_body]
pub(crate) fn random_below(n: usize) -> (r: usize)
    requires
        n > 0,
    ensures
        r < n,
{
    rand::Rng::gen_range(&mut rand::thread_rng(), 0..n)
}

/// Draws a wander direction among the feasible ones, weighted as
/// [`spec_weight`] says; `None` exactly when every direction is blocked.
pub fn choose_wander_direction(m: Movable) -> (r: Option<Direction>)
    ensures
        r is None <==> spec_total_weight(m) == 0,
        r matches Some(d) ==> spec_can_go(m, d),
{
    let up: usize = if m.can_up {
        1
    } else {
        0
    };
    let left: usize = if m.can_left {
        2
    } else {
        0
    };
    let right: usize = if m.can_right {
        2
    } else {
        0
    };
    let down: usize = if m.can_down {
        4
    } else {
        0
    };
    let total = up + left + right + down;
    if total == 0 {
        return None;
    }
    let draw = random_below(total);
    proof {
        lemma_pick_feasible(m, draw as int);
    }
    if draw < up {
        Some(Direction::Up)
    } else if draw < up + left {
        Some(Direction::Left)
    } else if draw < up + left + right {
        Some(Direction::Right)
    } else {
        Some(Direction::Down)
    }
}

/// What one wander tick may do to one enemy: drive on while the timer
/// runs, skip the turn when boxed in, or turn to some open direction and
/// start the timer over.
pub open spec fn spec_wander_step_ok(c: Combatant, n: Combatant, tiles: Seq<Tile>, dt_ms: u32) -> bool {
    if c.turn_timer_ms > dt_ms {
        // Timer still running: keep moving in the current direction.
        ({
            let moved = spec_moved(c.pos, c.dir, spec_travel(ENEMY_SPEED as int, dt_ms as int));
            n == (Combatant {
                pos: Pos { x: spec_clamp_i32(moved.0) as i32, y: spec_clamp_i32(moved.1) as i32 },
                turn_timer_ms: (c.turn_timer_ms - dt_ms) as u32,
                ..c
            })
        })
    } else if spec_total_weight(spec_feasible_moves(tiles, c.pos)) == 0 {
        // Every direction blocked: skip turning, retry next tick.
        n == (Combatant { turn_timer_ms: 0, ..c })
    } else {
        // Turned to some feasible direction and reset the timer.
        exists|d: Direction|
            spec_can_go(spec_feasible_moves(tiles, c.pos), d) && n == (Combatant {
                dir: d,
                turn_timer_ms: ENEMY_DIRECTION_INTERVAL_MS,
                ..c
            })
    }
}

impl GameSession {
    /// Advances every enemy's wander state by one tick: each enemy either
    /// drives on, turns to a randomly drawn open direction, or waits boxed
    /// in, as [`spec_wander_step_ok`] says for every outcome of the draw.
    #[verifier::rlimit(100)]
    pub fn enemies_move(&mut self, dt_ms: u32)
        requires
            old(self).wf(),
            old(self).state == AppState::Playing,
            dt_ms <= MAX_TICK_MS,
        ensures
            final(self).wf(),
            final(self).enemies@.len() == old(self).enemies@.len(),
            forall|i: int|
                0 <= i < old(self).enemies@.len() ==> spec_wander_step_ok(
                    old(self).enemies@[i],
                    #[trigger] final(self).enemies@[i],
                    old(self).tiles@,
                    dt_ms,
                ),
            *final(self) == (GameSession { enemies: final(self).enemies, ..*old(self) }),
    {
        let dist = travel(ENEMY_SPEED, dt_ms);
        let mut i: usize = 0;
        while i < self.enemies.len()
            invariant
                self.wf(),
                self.state == AppState::Playing,
                dt_ms <= MAX_TICK_MS,
                dist == spec_travel(ENEMY_SPEED as int, dt_ms as int),
                0 <= dist,
                i <= self.enemies@.len(),
                self.enemies@.len() == old(self).enemies@.len(),
                forall|j: int| i <= j < self.enemies@.len()
                    ==> self.enemies@[j] == old(self).enemies@[j],
                forall|j: int|
                    0 <= j < i ==> spec_wander_step_ok(
                        old(self).enemies@[j],
                        #[trigger] self.enemies@[j],
                        old(self).tiles@,
                        dt_ms,
                    ),
                *self == (GameSession { enemies: self.enemies, ..*old(self) }),
            decreases self.enemies@.len() - i,
    {
            let c = self.enemies[i];
            if c.turn_timer_ms > dt_ms {
                let np = c.pos.moved(c.dir, dist);
                self.enemies[i] = Combatant {
                    pos: np,
                    turn_timer_ms: c.turn_timer_ms - dt_ms,
                    ..c
                };
            } else {
                let m = feasible_moves(&self.tiles, c.pos);
                match choose_wander_direction(m) {
                    Some(d) => {
                        self.enemies[i] = Combatant {
                            dir: d,
                            turn_timer_ms: ENEMY_DIRECTION_INTERVAL_MS,
                            ..c
                        };
                    },
                    None => {
                        self.enemies[i] = Combatant { turn_timer_ms: 0, ..c };
                    },
                }
            }
            i = i + 1;
        }
    }
}

} // verus!
