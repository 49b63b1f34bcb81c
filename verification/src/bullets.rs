//! The projectile manager: bullet spawning, per-tick advancement, and the
//! fire-cooldown gates of players and enemies.

use vstd::prelude::*;
use crate::entities::{
    Bullet, Combatant, Faction, BULLET_SPEED, ENEMY_REFRESH_BULLET_INTERVAL_MS, MAX_TICK_MS,
    PLAYER_REFRESH_BULLET_INTERVAL_MS,
};
use crate::geom::{spec_clamp_i32, spec_moved, Direction, Pos};
use crate::session::{spec_tick_down, tick_down, GameSession};
use crate::state::AppState;

verus! {

/// How far something moving at `speed` world units per second travels in
/// `dt_ms` milliseconds (truncating division, as the engine does).
pub open spec fn spec_travel(speed: int, dt_ms: int) -> int {
    speed * dt_ms / 1000
}

/// Executable twin of [`spec_travel`] for the speeds and tick lengths the
/// game uses.
pub fn travel(speed: i32, dt_ms: u32) -> (r: i32)
    requires
        0 <= speed <= 1000,
        dt_ms <= MAX_TICK_MS,
    ensures
        r == spec_travel(speed as int, dt_ms as int),
        0 <= r <= 60_000_000,
{
    proof {
        assert(0 <= speed * dt_ms <= 1000 * 60000) by (nonlinear_arith)
            requires
                0 <= speed <= 1000,
                0 <= dt_ms <= 60000,
        ;
    }
    (speed as i64 * dt_ms as i64 / 1000) as i32
}

/// The shots fired by a column of tanks when `dt_ms` elapse: one bullet,
/// at the tank's position and facing, for every tank whose fire cooldown
/// runs out, in tank order.
pub open spec fn spec_fired_shots(s: Seq<Combatant>, dt_ms: u32) -> Seq<(Pos, Direction)>
    decreases s.len(),
{
    if s.len() == 0 {
        Seq::empty()
    } else {
        let rest = spec_fired_shots(s.drop_last(), dt_ms);
        let c = s.last();
        if spec_tick_down(c.fire_cooldown_ms, dt_ms) == 0 {
            rest.push((c.pos, c.dir))
        } else {
            rest
        }
    }
}

impl GameSession {
    /// Spawns a bullet owned by `owner` at `pos`, flying towards `dir`.
    /// The cooldown gate is the caller's: this operation trusts it, as the
    /// projectile manager owns bullets but not fire timers.
    pub fn spawn_bullet(&mut self, owner: Faction, pos: Pos, dir: Direction)
        requires
            old(self).wf(),
            old(self).state == AppState::Playing,
            old(self).next_id < u64::MAX,
        ensures
            final(self).wf(),
            final(self).bullets@ == old(self).bullets@.push(
                (Bullet { id: old(self).next_id, owner, dir, pos }),
            ),
            final(self).next_id == old(self).next_id + 1,
            *final(self) == (GameSession {
                bullets: final(self).bullets,
                next_id: final(self).next_id,
                ..*old(self)
            }),
    {
        let b = Bullet { id: self.next_id, owner, dir, pos };
        self.bullets.push(b);
        self.next_id = self.next_id + 1;
    }

    /// Advances every bullet by its speed times the tick length, in its own
    /// direction. No bound check happens here: flying out of the arena is
    /// detected by the resolver through the synthetic world-edge sensor, so
    /// there is a single code path for a bullet being gone.
    pub fn move_bullet(&mut self, dt_ms: u32)
        requires
            old(self).wf(),
            dt_ms <= MAX_TICK_MS,
        ensures
            final(self).wf(),
            final(self).bullets@.len() == old(self).bullets@.len(),
            forall|i: int|
                #![trigger final(self).bullets@[i]]
                0 <= i < old(self).bullets@.len() ==> {
                    let b = old(self).bullets@[i];
                    let moved = spec_moved(b.pos, b.dir, spec_travel(BULLET_SPEED as int, dt_ms as int));
                    final(self).bullets@[i] == (Bullet {
                        pos: Pos {
                            x: spec_clamp_i32(moved.0) as i32,
                            y: spec_clamp_i32(moved.1) as i32,
                        },
                        ..b
                    })
                },
            *final(self) == (GameSession { bullets: final(self).bullets, ..*old(self) }),
    {
        let dist = travel(BULLET_SPEED, dt_ms);
        let mut i: usize = 0;
        while i < self.bullets.len()
            invariant
                old(self).wf(),
                dist == spec_travel(BULLET_SPEED as int, dt_ms as int),
                0 <= dist,
                i <= self.bullets@.len(),
                self.bullets@.len() == old(self).bullets@.len(),
                forall|j: int| i <= j < self.bullets@.len()
                    ==> self.bullets@[j] == old(self).bullets@[j],
                forall|j: int|
                    #![trigger self.bullets@[j]]
                    0 <= j < i ==> {
                        let b = old(self).bullets@[j];
                        let moved = spec_moved(
                            b.pos,
                            b.dir,
                            spec_travel(BULLET_SPEED as int, dt_ms as int),
                        );
                        self.bullets@[j] == (Bullet {
                            pos: Pos {
                                x: spec_clamp_i32(moved.0) as i32,
                                y: spec_clamp_i32(moved.1) as i32,
                            },
                            ..b
                        })
                    },
                *self == (GameSession { bullets: self.bullets, ..*old(self) }),
            decreases self.bullets@.len() - i,
        {
            let b = self.bullets[i];
            let np = b.pos.moved(b.dir, dist);
            self.bullets[i] = Bullet { pos: np, ..b };
            i = i + 1;
        }
        proof {
            assert(self.ids_wf());
        }
    }

    /// Fire intent for player `no`: spawns a bullet and resets the cooldown
    /// if and only if that player is alive and its cooldown has elapsed.
    /// This gate is the single protection against unbounded fire rate.
    #[verifier::rlimit(50)]
    pub fn players_attack(&mut self, no: u8) -> (fired: bool)
        requires
            old(self).wf(),
            old(self).state == AppState::Playing,
            old(self).next_id < u64::MAX,
        ensures
            final(self).wf(),
            fired <==> exists|i: int|
                0 <= i < old(self).players@.len() && old(self).players@[i].player_no == no
                    && old(self).players@[i].fire_cooldown_ms == 0,
            !fired ==> *final(self) == *old(self),
            forall|i: int|
                0 <= i < old(self).players@.len() && old(self).players@[i].player_no == no && old(
                    self,
                ).players@[i].fire_cooldown_ms == 0 ==> {
                    let c = old(self).players@[i];
                    &&& final(self).bullets@ == old(self).bullets@.push(
                        (Bullet {
                            id: old(self).next_id,
                            owner: Faction::Player,
                            dir: c.dir,
                            pos: c.pos,
                        }),
                    )
                    &&& final(self).players@ == old(self).players@.update(
                        i,
                        (Combatant { fire_cooldown_ms: PLAYER_REFRESH_BULLET_INTERVAL_MS, ..c }),
                    )
                    &&& final(self).next_id == old(self).next_id + 1
                    &&& *final(self) == (GameSession {
                        bullets: final(self).bullets,
                        players: final(self).players,
                        next_id: final(self).next_id,
                        ..*old(self)
                    })
                },
    {
        if let Some(i) = self.find_player_by_no(no) {
            let c = self.players[i];
            if c.fire_cooldown_ms == 0 {
                self.spawn_bullet(Faction::Player, c.pos, c.dir);
                self.players[i] = Combatant {
                    fire_cooldown_ms: PLAYER_REFRESH_BULLET_INTERVAL_MS,
                    ..c
                };
                proof {
                    assert forall|a: int, b: int|
                        0 <= a < b < self.players@.len() implies self.players@[a].player_no
                        != self.players@[b].player_no by {}
                }
                return true;
            }
        }
        false
    }

    /// Ticks every enemy's fire cooldown by `dt_ms`; each enemy whose
    /// cooldown runs out fires a bullet from its position towards its
    /// facing and starts the cooldown over. Enemies fire on their own
    /// schedule, with no input.
    #[verifier::rlimit(100)]
    pub fn enemies_attack(&mut self, dt_ms: u32)
        requires
            old(self).wf(),
            old(self).state == AppState::Playing,
            dt_ms <= MAX_TICK_MS,
            old(self).next_id + old(self).enemies@.len() <= u64::MAX,
        ensures
            final(self).wf(),
            final(self).enemies@.len() == old(self).enemies@.len(),
            // Each cooldown ticks down; an elapsed one restarts full.
            forall|i: int|
                #![trigger final(self).enemies@[i]]
                0 <= i < old(self).enemies@.len() ==> {
                    let c = old(self).enemies@[i];
                    let ticked = spec_tick_down(c.fire_cooldown_ms, dt_ms);
                    final(self).enemies@[i] == (Combatant {
                        fire_cooldown_ms: if ticked == 0 {
                            ENEMY_REFRESH_BULLET_INTERVAL_MS
                        } else {
                            ticked
                        },
                        ..c
                    })
                },
            // Exactly the elapsed enemies' shots are appended, in order.
            ({
                let shots = spec_fired_shots(old(self).enemies@, dt_ms);
                &&& final(self).bullets@.len() == old(self).bullets@.len() + shots.len()
                &&& forall|j: int|
                    0 <= j < old(self).bullets@.len()
                        ==> final(self).bullets@[j] == old(self).bullets@[j]
                &&& forall|k: int|
                    0 <= k < shots.len() ==> final(self).bullets@[old(self).bullets@.len() + k]
                        == Bullet {
                        id: (old(self).next_id + k) as u64,
                        owner: Faction::Enemy,
                        dir: shots[k].1,
                        pos: shots[k].0,
                    }
                &&& final(self).next_id == old(self).next_id + shots.len()
            }),
            *final(self) == (GameSession {
                bullets: final(self).bullets,
                enemies: final(self).enemies,
                next_id: final(self).next_id,
                ..*old(self)
            }),
    {
        let ghost orig = old(self).enemies@;
        let mut i: usize = 0;
        while i < self.enemies.len()
            invariant
                self.wf(),
                self.state == AppState::Playing,
                dt_ms <= MAX_TICK_MS,
                i <= self.enemies@.len(),
                self.enemies@.len() == orig.len(),
                orig == old(self).enemies@,
                old(self).next_id + orig.len() <= u64::MAX,
                forall|j: int| i <= j < orig.len() ==> self.enemies@[j] == orig[j],
                forall|j: int|
                    #![trigger self.enemies@[j]]
                    0 <= j < i ==> {
                        let c = orig[j];
                        let ticked = spec_tick_down(c.fire_cooldown_ms, dt_ms);
                        self.enemies@[j] == (Combatant {
                            fire_cooldown_ms: if ticked == 0 {
                                ENEMY_REFRESH_BULLET_INTERVAL_MS
                            } else {
                                ticked
                            },
                            ..c
                        })
                    },
                ({
                    let shots = spec_fired_shots(orig.take(i as int), dt_ms);
                    &&& shots.len() <= i
                    &&& self.bullets@.len() == old(self).bullets@.len() + shots.len()
                    &&& forall|j: int|
                        0 <= j < old(self).bullets@.len()
                            ==> self.bullets@[j] == old(self).bullets@[j]
                    &&& forall|k: int|
                        0 <= k < shots.len() ==> self.bullets@[old(self).bullets@.len() + k]
                            == (Bullet {
                            id: (old(self).next_id + k) as u64,
                            owner: Faction::Enemy,
                            dir: shots[k].1,
                            pos: shots[k].0,
                        })
                    &&& self.next_id == old(self).next_id + shots.len()
                }),
                *self == (GameSession {
                    bullets: self.bullets,
                    enemies: self.enemies,
                    next_id: self.next_id,
                    ..*old(self)
                }),
            decreases self.enemies@.len() - i,
        {
            proof {
                assert(orig.take(i as int + 1).drop_last() =~= orig.take(i as int));
                assert(orig.take(i as int + 1).last() == orig[i as int]);
            }
            let c = self.enemies[i];
            let ticked = tick_down(c.fire_cooldown_ms, dt_ms);
            if ticked == 0 {
                self.spawn_bullet(Faction::Enemy, c.pos, c.dir);
                self.enemies[i] = Combatant {
                    fire_cooldown_ms: ENEMY_REFRESH_BULLET_INTERVAL_MS,
                    ..c
                };
            } else {
                self.enemies[i] = Combatant { fire_cooldown_ms: ticked, ..c };
            }
            i = i + 1;
        }
        proof {
            assert(orig.take(orig.len() as int) =~= orig);
        }
    }
}

} // verus!
