//! Per-tick combatant upkeep: movement intents, the shield and
//! fire-cooldown timers, and position reports from the physics
//! collaborator.

use vstd::prelude::*;
use crate::entities::{Combatant, MAX_TICK_MS, PLAYER_SPEED};
use crate::geom::{Direction, Pos};
use crate::session::{spec_tick_down, tick_down, GameSession};

verus! {

/// The velocity a player intent sets: one axis at player speed, or a full
/// stop. Diagonal movement is impossible by construction.
pub open spec fn spec_intent_vel(intent: Option<Direction>) -> (int, int) {
    match intent {
        None => (0, 0),
        Some(Direction::Up) => (0, PLAYER_SPEED as int),
        Some(Direction::Down) => (0, -(PLAYER_SPEED as int)),
        Some(Direction::Left) => (-(PLAYER_SPEED as int), 0),
        Some(Direction::Right) => (PLAYER_SPEED as int, 0),
    }
}

impl GameSession {
    /// Applies player `no`'s movement intent: a direction sets the
    /// velocity along that single axis and turns the tank; no intent stops
    /// it. The physics collaborator integrates the velocity and handles
    /// blocking; the core never corrects positions for it.
    pub fn players_move(&mut self, no: u8, intent: Option<Direction>)
        requires
            old(self).wf(),
        ensures
            final(self).wf(),
            !old(self).spec_has_player(no) ==> *final(self) == *old(self),
            forall|i: int|
                0 <= i < old(self).players@.len() && old(self).players@[i].player_no == no ==> {
                    let c = old(self).players@[i];
                    &&& final(self).players@ == old(self).players@.update(
                        i,
                        (Combatant {
                            vel_x: spec_intent_vel(intent).0 as i32,
                            vel_y: spec_intent_vel(intent).1 as i32,
                            dir: match intent {
                                Some(d) => d,
                                None => c.dir,
                            },
                            ..c
                        }),
                    )
                    &&& *final(self) == (GameSession {
                        players: final(self).players,
                        ..*old(self)
                    })
                },
    {
        if let Some(i) = self.find_player_by_no(no) {
            let c = self.players[i];
            let updated = match intent {
                None => Combatant { vel_x: 0, vel_y: 0, ..c },
                Some(Direction::Up) => Combatant {
                    vel_x: 0,
                    vel_y: PLAYER_SPEED,
                    dir: Direction::Up,
                    ..c
                },
                Some(Direction::Down) => Combatant {
                    vel_x: 0,
                    vel_y: -PLAYER_SPEED,
                    dir: Direction::Down,
                    ..c
                },
                Some(Direction::Left) => Combatant {
                    vel_x: -PLAYER_SPEED,
                    vel_y: 0,
                    dir: Direction::Left,
                    ..c
                },
                Some(Direction::Right) => Combatant {
                    vel_x: PLAYER_SPEED,
                    vel_y: 0,
                    dir: Direction::Right,
                    ..c
                },
            };
            self.players[i] = updated;
            proof {
                assert forall|a: int, b: int|
                    0 <= a < b < self.players@.len() implies self.players@[a].player_no
                    != self.players@[b].player_no by {}
            }
        }
    }

    /// Counts every player's post-spawn shield window down; a shield whose
    /// window closes simply stops protecting (its timer rests at zero).
    pub fn remove_shield(&mut self, dt_ms: u32)
        requires
            old(self).wf(),
            dt_ms <= MAX_TICK_MS,
        ensures
            final(self).wf(),
            final(self).players@.len() == old(self).players@.len(),
            forall|i: int|
                #![trigger final(self).players@[i]]
                0 <= i < old(self).players@.len() ==> {
                    let c = old(self).players@[i];
                    final(self).players@[i] == (Combatant {
                        shield_ms: spec_tick_down(c.shield_ms, dt_ms),
                        ..c
                    })
                },
            *final(self) == (GameSession { players: final(self).players, ..*old(self) }),
    {
        let mut i: usize = 0;
        while i < self.players.len()
            invariant
                self.wf(),
                i <= self.players@.len(),
                self.players@.len() == old(self).players@.len(),
                forall|j: int| i <= j < self.players@.len()
                    ==> self.players@[j] == old(self).players@[j],
                forall|j: int|
                    #![trigger self.players@[j]]
                    0 <= j < i ==> {
                        let c = old(self).players@[j];
                        self.players@[j] == (Combatant {
                            shield_ms: spec_tick_down(c.shield_ms, dt_ms),
                            ..c
                        })
                    },
                *self == (GameSession { players: self.players, ..*old(self) }),
            decreases self.players@.len() - i,
        {
            let c = self.players[i];
            self.players[i] = Combatant { shield_ms: tick_down(c.shield_ms, dt_ms), ..c };
            i = i + 1;
        }
    }

    /// Counts every player's fire cooldown down towards ready.
    pub fn refresh_bullet_timers(&mut self, dt_ms: u32)
        requires
            old(self).wf(),
            dt_ms <= MAX_TICK_MS,
        ensures
            final(self).wf(),
            final(self).players@.len() == old(self).players@.len(),
            forall|i: int|
                #![trigger final(self).players@[i]]
                0 <= i < old(self).players@.len() ==> {
                    let c = old(self).players@[i];
                    final(self).players@[i] == (Combatant {
                        fire_cooldown_ms: spec_tick_down(c.fire_cooldown_ms, dt_ms),
                        ..c
                    })
                },
            *final(self) == (GameSession { players: final(self).players, ..*old(self) }),
    {
        let mut i: usize = 0;
        while i < self.players.len()
            invariant
                self.wf(),
                i <= self.players@.len(),
                self.players@.len() == old(self).players@.len(),
                forall|j: int| i <= j < self.players@.len()
                    ==> self.players@[j] == old(self).players@[j],
                forall|j: int|
                    #![trigger self.players@[j]]
                    0 <= j < i ==> {
                        let c = old(self).players@[j];
                        self.players@[j] == (Combatant {
                            fire_cooldown_ms: spec_tick_down(c.fire_cooldown_ms, dt_ms),
                            ..c
                        })
                    },
                *self == (GameSession { players: self.players, ..*old(self) }),
            decreases self.players@.len() - i,
        {
            let c = self.players[i];
            self.players[i] = Combatant {
                fire_cooldown_ms: tick_down(c.fire_cooldown_ms, dt_ms),
                ..c
            };
            i = i + 1;
        }
    }

    /// Records where the physics collaborator moved the tank with this
    /// collider id; unknown ids are ignored. The core issues velocities
    /// and existence, the collaborator owns continuous movement.
    pub fn sync_position(&mut self, id: u64, pos: Pos)
        requires
            old(self).wf(),
        ensures
            final(self).wf(),
            ((forall|i: int| 0 <= i < old(self).players@.len() ==> old(self).players@[i].id != id)
                && (forall|i: int|
                0 <= i < old(self).enemies@.len() ==> old(self).enemies@[i].id != id)) ==> *final(self)
                == *old(self),
            forall|i: int|
                0 <= i < old(self).players@.len() && old(self).players@[i].id == id ==> {
                    &&& final(self).players@ == old(self).players@.update(
                        i,
                        (Combatant { pos, ..old(self).players@[i] }),
                    )
                    &&& *final(self) == (GameSession {
                        players: final(self).players,
                        ..*old(self)
                    })
                },
            forall|i: int|
                0 <= i < old(self).enemies@.len() && old(self).enemies@[i].id == id ==> {
                    &&& final(self).enemies@ == old(self).enemies@.update(
                        i,
                        (Combatant { pos, ..old(self).enemies@[i] }),
                    )
                    &&& *final(self) == (GameSession {
                        enemies: final(self).enemies,
                        ..*old(self)
                    })
                },
    {
        if let Some(i) = self.find_player(id) {
            let c = self.players[i];
            self.players[i] = Combatant { pos, ..c };
            proof {
                assert forall|a: int, b: int|
                    0 <= a < b < self.players@.len() implies self.players@[a].player_no
                    != self.players@[b].player_no by {}
            }
        } else if let Some(i) = self.find_enemy(id) {
            let c = self.enemies[i];
            self.enemies[i] = Combatant { pos, ..c };
        }
    }
}

} // verus!
