//! Spawning: the two-phase player spawn (a non-collidable birth effect
//! that converts exactly once into a live, shielded tank) and the enemy
//! auto-spawn policy with its population cap, per-level quota and
//! keep-your-distance rule.

use vstd::prelude::*;
use crate::entities::{
    Combatant, Faction, PendingSpawn, BORN_DURATION_MS, ENEMIES_PER_LEVEL,
    ENEMY_DIRECTION_INTERVAL_MS, ENEMY_REFRESH_BULLET_INTERVAL_MS, MAX_LIVE_ENEMIES, MAX_TICK_MS,
    PLAYER_REFRESH_BULLET_INTERVAL_MS, SHIELD_DURATION_MS,
};
use crate::geom::{Direction, Pos, TILE_SIZE};
use crate::session::{spec_tick_down, tick_down, GameSession};
use crate::state::{AppState, MultiplayerMode};

verus! {

/// Closest a fresh enemy may appear to any live tank: two tile widths.
pub const SPAWN_CLEARANCE: i32 = 2 * TILE_SIZE;

/// The live tank a pending spawn converts into: shielded, facing up,
/// standing still, with a full fire cooldown to sit out.
pub open spec fn spec_new_player(p: PendingSpawn, id: u64) -> Combatant {
    Combatant {
        id,
        faction: Faction::Player,
        player_no: p.player_no,
        pos: p.pos,
        dir: Direction::Up,
        vel_x: 0,
        vel_y: 0,
        fire_cooldown_ms: PLAYER_REFRESH_BULLET_INTERVAL_MS,
        shield_ms: SHIELD_DURATION_MS,
        turn_timer_ms: 0,
    }
}

/// A fresh enemy tank: live at once, unshielded, facing up, with its fire
/// and direction timers starting full.
pub open spec fn spec_new_enemy(pos: Pos, id: u64) -> Combatant {
    Combatant {
        id,
        faction: Faction::Enemy,
        player_no: 0,
        pos,
        dir: Direction::Up,
        vel_x: 0,
        vel_y: 0,
        fire_cooldown_ms: ENEMY_REFRESH_BULLET_INTERVAL_MS,
        shield_ms: 0,
        turn_timer_ms: ENEMY_DIRECTION_INTERVAL_MS,
    }
}

/// Whether `p` keeps the required distance from every live tank: an enemy
/// may not appear within two tile widths of any enemy or player.
pub open spec fn spec_spawn_point_clear(s: GameSession, p: Pos) -> bool {
    &&& forall|i: int|
        0 <= i < s.enemies@.len() ==> p.spec_dist_sq(#[trigger] s.enemies@[i].pos)
            >= SPAWN_CLEARANCE * SPAWN_CLEARANCE
    &&& forall|i: int|
        0 <= i < s.players@.len() ==> p.spec_dist_sq(#[trigger] s.players@[i].pos)
            >= SPAWN_CLEARANCE * SPAWN_CLEARANCE
}

impl GameSession {
    /// Whether `p` is clear of every live tank, executable twin of
    /// [`spec_spawn_point_clear`].
    pub fn spawn_point_clear(&self, p: Pos) -> (r: bool)
        ensures
            r == spec_spawn_point_clear(*self, p),
    {
        let mut i: usize = 0;
        while i < self.enemies.len()
            invariant
                i <= self.enemies@.len(),
                forall|j: int|
                    0 <= j < i ==> p.spec_dist_sq(#[trigger] self.enemies@[j].pos)
                        >= SPAWN_CLEARANCE * SPAWN_CLEARANCE,
            decreases self.enemies@.len() - i,
        {
            if p.closer_than(self.enemies[i].pos, SPAWN_CLEARANCE) {
                return false;
            }
            i = i + 1;
        }
        let mut j: usize = 0;
        while j < self.players.len()
            invariant
                i >= self.enemies@.len(),
                forall|k: int|
                    0 <= k < self.enemies@.len() ==> p.spec_dist_sq(#[trigger] self.enemies@[k].pos)
                        >= SPAWN_CLEARANCE * SPAWN_CLEARANCE,
                j <= self.players@.len(),
                forall|k: int|
                    0 <= k < j ==> p.spec_dist_sq(#[trigger] self.players@[k].pos)
                        >= SPAWN_CLEARANCE * SPAWN_CLEARANCE,
            decreases self.players@.len() - j,
        {
            if p.closer_than(self.players[j].pos, SPAWN_CLEARANCE) {
                return false;
            }
            j = j + 1;
        }
        true
    }

    /// Announces the spawn of player `no` at its level marker if and only
    /// if that player is absent, not already announcing, and has a life
    /// left (and, for player two, the session is in two-player mode).
    /// The announcement is non-collidable: nothing can hit a tank during
    /// its birth effect.
    pub fn auto_spawn_player(&mut self, no: u8) -> (announced: bool)
        requires
            old(self).wf(),
            old(self).state == AppState::Playing,
            no == 1 || no == 2,
        ensures
            final(self).wf(),
            announced <==> !old(self).spec_has_player(no) && !old(self).spec_has_pending(no) && old(
                self,
            ).spec_lives(no) >= 1 && (no == 1 || old(self).mode == MultiplayerMode::TwoPlayers),
            !announced ==> *final(self) == *old(self),
            announced ==> final(self).pending_spawns@ == old(self).pending_spawns@.push(
                (PendingSpawn {
                    player_no: no,
                    pos: old(self).levels@[old(self).level_index as int].spec_player_marker(no),
                    remaining_ms: BORN_DURATION_MS,
                }),
            ) && *final(self) == (GameSession {
                pending_spawns: final(self).pending_spawns,
                ..*old(self)
            }),
    {
        if no == 2 && self.mode == MultiplayerMode::SinglePlayer {
            return false;
        }
        if self.find_player_by_no(no).is_some() {
            return false;
        }
        if self.has_pending(no) {
            return false;
        }
        if self.lives(no) == 0 {
            return false;
        }
        let marker = self.levels[self.level_index].player_marker(no);
        self.pending_spawns.push(PendingSpawn {
            player_no: no,
            pos: marker,
            remaining_ms: BORN_DURATION_MS,
        });
        true
    }

    /// Plays the birth effect forward: every announcement's timer counts
    /// down (stopping at zero, where the spawn is ready to convert).
    pub fn animate_born(&mut self, dt_ms: u32)
        requires
            old(self).wf(),
            dt_ms <= MAX_TICK_MS,
        ensures
            final(self).wf(),
            final(self).pending_spawns@.len() == old(self).pending_spawns@.len(),
            forall|i: int|
                #![trigger final(self).pending_spawns@[i]]
                0 <= i < old(self).pending_spawns@.len() ==> {
                    let p = old(self).pending_spawns@[i];
                    final(self).pending_spawns@[i] == (PendingSpawn {
                        remaining_ms: spec_tick_down(p.remaining_ms, dt_ms),
                        ..p
                    })
                },
            *final(self) == (GameSession {
                pending_spawns: final(self).pending_spawns,
                ..*old(self)
            }),
    {
        let mut i: usize = 0;
        while i < self.pending_spawns.len()
            invariant
                self.wf(),
                i <= self.pending_spawns@.len(),
                self.pending_spawns@.len() == old(self).pending_spawns@.len(),
                forall|j: int| i <= j < self.pending_spawns@.len()
                    ==> self.pending_spawns@[j] == old(self).pending_spawns@[j],
                forall|j: int|
                    #![trigger self.pending_spawns@[j]]
                    0 <= j < i ==> {
                        let p = old(self).pending_spawns@[j];
                        self.pending_spawns@[j] == (PendingSpawn {
                            remaining_ms: spec_tick_down(p.remaining_ms, dt_ms),
                            ..p
                        })
                    },
                *self == (GameSession { pending_spawns: self.pending_spawns, ..*old(self) }),
            decreases self.pending_spawns@.len() - i,
        {
            let p = self.pending_spawns[i];
            self.pending_spawns[i] = PendingSpawn {
                remaining_ms: tick_down(p.remaining_ms, dt_ms),
                ..p
            };
            i = i + 1;
        }
    }

    /// Converts the first announcement whose birth effect has finished
    /// into a live, shielded player tank; returns whether one converted.
    /// Each announcement converts exactly once: conversion removes it.
    pub fn spawn_ready_player(&mut self) -> (converted: bool)
        requires
            old(self).wf(),
            old(self).state == AppState::Playing,
            old(self).next_id < u64::MAX,
        ensures
            final(self).wf(),
            converted <==> exists|i: int|
                0 <= i < old(self).pending_spawns@.len() && (#[trigger] old(
                    self,
                ).pending_spawns@[i]).remaining_ms == 0,
            !converted ==> *final(self) == *old(self),
            forall|i: int|
                0 <= i < old(self).pending_spawns@.len() && (#[trigger] old(
                    self,
                ).pending_spawns@[i]).remaining_ms == 0 && (forall|j: int|
                    0 <= j < i ==> (#[trigger] old(self).pending_spawns@[j]).remaining_ms > 0) ==> {
                    &&& final(self).pending_spawns@ == old(self).pending_spawns@.remove(i)
                    &&& final(self).players@ == old(self).players@.push(
                        spec_new_player(old(self).pending_spawns@[i], old(self).next_id),
                    )
                    &&& final(self).next_id == old(self).next_id + 1
                    &&& *final(self) == (GameSession {
                        pending_spawns: final(self).pending_spawns,
                        players: final(self).players,
                        next_id: final(self).next_id,
                        ..*old(self)
                    })
                },
    {
        let mut i: usize = 0;
        while i < self.pending_spawns.len()
            invariant
                self.wf(),
                old(self).next_id < u64::MAX,
                old(self).state == AppState::Playing,
                i <= self.pending_spawns@.len(),
                *self == *old(self),
                forall|j: int|
                    0 <= j < i ==> (#[trigger] self.pending_spawns@[j]).remaining_ms > 0,
            decreases self.pending_spawns@.len() - i,
        {
            let p = self.pending_spawns[i];
            if p.remaining_ms == 0 {
                self.pending_spawns.remove(i);
                let tank = Combatant {
                    id: self.next_id,
                    faction: Faction::Player,
                    player_no: p.player_no,
                    pos: p.pos,
                    dir: Direction::Up,
                    vel_x: 0,
                    vel_y: 0,
                    fire_cooldown_ms: PLAYER_REFRESH_BULLET_INTERVAL_MS,
                    shield_ms: SHIELD_DURATION_MS,
                    turn_timer_ms: 0,
                };
                self.players.push(tank);
                self.next_id = self.next_id + 1;
                proof {
                    let op = old(self).pending_spawns@;
                    op.remove_ensures(i as int);
                    assert(self.players@ == old(self).players@.push(
                        spec_new_player(op[i as int], old(self).next_id),
                    ));
                    // The converted number is not announced twice and has
                    // no live tank, so the new tank keeps every
                    // distinctness clause.
                    assert forall|a: int, b: int|
                        0 <= a < b < self.players@.len() implies self.players@[a].player_no
                        != self.players@[b].player_no by {
                        if b == self.players@.len() - 1 {
                            assert(self.players@[a] == old(self).players@[a]);
                            assert(!old(self).spec_has_player(op[i as int].player_no));
                        }
                    }
                    assert forall|a: int|
                        0 <= a < self.pending_spawns@.len() implies 1 <= (
                        #[trigger] self.pending_spawns@[a]).player_no <= 2 && !self.spec_has_player(
                            self.pending_spawns@[a].player_no,
                        ) by {
                        let sa = if a < i as int {
                            a
                        } else {
                            a + 1
                        };
                        assert(self.pending_spawns@[a] == op[sa]);
                        assert(op[sa].player_no != op[i as int].player_no);
                        assert(!old(self).spec_has_player(op[sa].player_no));
                        assert forall|pb: int|
                            0 <= pb < self.players@.len() implies self.players@[pb].player_no
                            != self.pending_spawns@[a].player_no by {
                            if pb < self.players@.len() - 1 {
                                assert(self.players@[pb] == old(self).players@[pb]);
                            }
                        }
                    }
                    assert forall|a: int, b: int|
                        0 <= a < b < self.pending_spawns@.len() implies self.pending_spawns@[
                            a
                        ].player_no != self.pending_spawns@[b].player_no by {
                        let sa = if a < i as int {
                            a
                        } else {
                            a + 1
                        };
                        let sb = if b < i as int {
                            b
                        } else {
                            b + 1
                        };
                        assert(self.pending_spawns@[a] == op[sa]);
                        assert(self.pending_spawns@[b] == op[sb]);
                    }
                }
                return true;
            }
            i = i + 1;
        }
        false
    }

    /// Spawns an enemy at the level's enemy marker `mi` if and only if the
    /// live cap is not reached, the level's quota is not exhausted, and
    /// the marker keeps two tile widths of distance from every live tank.
    /// Rejection is a silent no-op, retried on a later tick.
    pub fn auto_spawn_enemy_at(&mut self, mi: usize) -> (spawned: bool)
        requires
            old(self).wf(),
            old(self).state == AppState::Playing,
            old(self).next_id < u64::MAX,
            mi < old(self).levels@[old(self).level_index as int].enemy_markers@.len(),
        ensures
            final(self).wf(),
            ({
                let marker = old(self).levels@[old(self).level_index as int].enemy_markers@[
                    mi as int
                ];
                &&& spawned <==> old(self).enemies@.len() < MAX_LIVE_ENEMIES && old(
                    self,
                ).spawned_enemies < ENEMIES_PER_LEVEL && spec_spawn_point_clear(*old(self), marker)
                &&& !spawned ==> *final(self) == *old(self)
                &&& spawned ==> {
                    &&& final(self).enemies@ == old(self).enemies@.push(
                        spec_new_enemy(marker, old(self).next_id),
                    )
                    &&& final(self).spawned_enemies == old(self).spawned_enemies + 1
                    &&& final(self).next_id == old(self).next_id + 1
                    &&& *final(self) == (GameSession {
                        enemies: final(self).enemies,
                        spawned_enemies: final(self).spawned_enemies,
                        next_id: final(self).next_id,
                        ..*old(self)
                    })
                }
            }),
    {
        if self.enemies.len() >= MAX_LIVE_ENEMIES {
            return false;
        }
        if self.spawned_enemies >= ENEMIES_PER_LEVEL {
            return false;
        }
        let marker = self.levels[self.level_index].enemy_markers[mi];
        if !self.spawn_point_clear(marker) {
            return false;
        }
        let tank = Combatant {
            id: self.next_id,
            faction: Faction::Enemy,
            player_no: 0,
            pos: marker,
            dir: Direction::Up,
            vel_x: 0,
            vel_y: 0,
            fire_cooldown_ms: ENEMY_REFRESH_BULLET_INTERVAL_MS,
            shield_ms: 0,
            turn_timer_ms: ENEMY_DIRECTION_INTERVAL_MS,
        };
        self.enemies.push(tank);
        self.spawned_enemies = self.spawned_enemies + 1;
        self.next_id = self.next_id + 1;
        true
    }

    /// The per-tick enemy auto-spawn: a no-op when the live cap or the
    /// level quota is reached or the level has no enemy markers; otherwise
    /// tries one uniformly random marker, rejecting it (to be retried next
    /// tick) when it sits too close to a live tank. Whatever the draw, the
    /// population bounds hold afterwards, and any spawn happened at one of
    /// the level's markers under the rules of
    /// [`GameSession::auto_spawn_enemy_at`].
    pub fn auto_spawn_enemies(&mut self) -> (spawned: bool)
        requires
            old(self).wf(),
            old(self).state == AppState::Playing,
            old(self).next_id < u64::MAX,
        ensures
            final(self).wf(),
            !spawned ==> *final(self) == *old(self),
            // When the gates are open and every marker keeps its distance,
            // the draw cannot pick a rejected spot: a spawn is owed.
            old(self).enemies@.len() < MAX_LIVE_ENEMIES && old(self).spawned_enemies
                < ENEMIES_PER_LEVEL && old(self).levels@[old(
                self,
            ).level_index as int].enemy_markers@.len() > 0 && (forall|mi: int|
                0 <= mi < old(self).levels@[old(self).level_index as int].enemy_markers@.len()
                    ==> spec_spawn_point_clear(
                    *old(self),
                    #[trigger] old(self).levels@[old(
                        self,
                    ).level_index as int].enemy_markers@[mi],
                )) ==> spawned,
            spawned ==> exists|mi: int|
                #![trigger old(self).levels@[old(self).level_index as int].enemy_markers@[mi]]
                {
                    let g = old(self).levels@[old(self).level_index as int];
                    &&& 0 <= mi < g.enemy_markers@.len()
                    &&& old(self).enemies@.len() < MAX_LIVE_ENEMIES
                    &&& old(self).spawned_enemies < ENEMIES_PER_LEVEL
                    &&& spec_spawn_point_clear(*old(self), g.enemy_markers@[mi])
                    &&& final(self).enemies@ == old(self).enemies@.push(
                        spec_new_enemy(g.enemy_markers@[mi], old(self).next_id),
                    )
                    &&& final(self).spawned_enemies == old(self).spawned_enemies + 1
                    &&& *final(self) == (GameSession {
                        enemies: final(self).enemies,
                        spawned_enemies: final(self).spawned_enemies,
                        next_id: final(self).next_id,
                        ..*old(self)
                    })
                },
    {
        if self.enemies.len() >= MAX_LIVE_ENEMIES {
            return false;
        }
        if self.spawned_enemies >= ENEMIES_PER_LEVEL {
            return false;
        }
        let n = self.levels[self.level_index].enemy_markers.len();
        if n == 0 {
            // No markers at all: the level degrades to one where no
            // enemies ever appear.
            return false;
        }
        let mi = crate::wander::random_below(n);
        self.auto_spawn_enemy_at(mi)
    }
}

} // verus!
