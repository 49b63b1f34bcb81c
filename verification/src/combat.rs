//! Damage application: the single entry point through which a bullet hurts
//! a tank, with its faction and shield precedence rules.

use vstd::prelude::*;
use crate::entities::{Combatant, Faction};
use crate::session::GameSession;

verus! {

/// What a bullet overlap does to a combatant, in precedence order: friendly
/// fire is ignored, a shield deflects, anything else destroys.
#[derive(Debug, Clone, Copy, PartialEq, Eq, Structural)]
pub enum HitOutcome {
    /// The bullet belongs to the combatant's own faction: no effect at all,
    /// the bullet is not even consumed.
    Friendly,
    /// The combatant's invulnerability window is open: the bullet is
    /// consumed, the combatant survives untouched.
    Deflected,
    /// The combatant is despawned; a player also loses one life.
    Destroyed,
}

/// The outcome of a hit, decided by faction and shield alone.
pub open spec fn spec_hit_outcome(c: Combatant, source: Faction) -> HitOutcome {
    if c.faction == source {
        HitOutcome::Friendly
    } else if c.spec_shielded() {
        HitOutcome::Deflected
    } else {
        HitOutcome::Destroyed
    }
}

/// Executable twin of [`spec_hit_outcome`].
pub fn hit_outcome(c: &Combatant, source: Faction) -> (r: HitOutcome)
    ensures
        r == spec_hit_outcome(*c, source),
{
    if c.faction == source {
        HitOutcome::Friendly
    } else if c.shield_ms > 0 {
        HitOutcome::Deflected
    } else {
        HitOutcome::Destroyed
    }
}

/// A combatant whose shield is active never loses a life to an enemy
/// bullet: whatever the source faction, the outcome of a hit on a shielded
/// combatant is never `Destroyed`.
pub proof fn lemma_shield_protects(c: Combatant, source: Faction)
    requires
        c.shield_ms > 0,
    ensures
        spec_hit_outcome(c, source) != HitOutcome::Destroyed,
{
}

/// Friendly fire is never lethal: a bullet of the combatant's own faction
/// leaves it entirely untouched, shielded or not.
pub proof fn lemma_friendly_fire_harmless(c: Combatant, source: Faction)
    requires
        c.faction == source,
    ensures
        spec_hit_outcome(c, source) == HitOutcome::Friendly,
{
}

/// An unshielded combatant facing a bullet of the other faction is
/// destroyed: the shield window and faction rules are the only protections.
pub proof fn lemma_cross_faction_unshielded_lethal(c: Combatant, source: Faction)
    requires
        c.faction != source,
        c.shield_ms == 0,
    ensures
        spec_hit_outcome(c, source) == HitOutcome::Destroyed,
{
}

impl GameSession {
    /// Lives left for player `no` (1 or 2).
    pub fn lives(&self, no: u8) -> (r: u8)
        ensures
            r == self.spec_lives(no),
    {
        if no == 1 {
            self.lives1
        } else {
            self.lives2
        }
    }

    /// Applies a hit from a bullet of `source` faction to the combatant
    /// whose collider id is `id`, following the precedence of
    /// [`spec_hit_outcome`]: friendly fire is a no-op, a shield deflects,
    /// otherwise the combatant is despawned and a player loses one life.
    /// Returns `None` when no live combatant carries that id (the target
    /// resolved earlier in the same pass, or the id names something else):
    /// the session is then unchanged.
    ///
    /// Consuming the bullet and emitting the explosion are the collision
    /// resolver's job; this method owns the combatant and the lives.
    pub fn apply_hit(&mut self, id: u64, source: Faction) -> (r: Option<HitOutcome>)
        requires
            old(self).wf(),
        ensures
            final(self).wf(),
            // Only combatants and lives change; everything else is untouched.
            final(self).state == old(self).state,
            final(self).mode == old(self).mode,
            final(self).levels == old(self).levels,
            final(self).level_index == old(self).level_index,
            final(self).spawned_enemies == old(self).spawned_enemies,
            final(self).tiles == old(self).tiles,
            final(self).bullets == old(self).bullets,
            final(self).pending_spawns == old(self).pending_spawns,
            final(self).effects == old(self).effects,
            final(self).explosions == old(self).explosions,
            final(self).home_destroyed == old(self).home_destroyed,
            final(self).game_over_ms == old(self).game_over_ms,
            final(self).next_id == old(self).next_id,
            final(self).edge_id == old(self).edge_id,
            // No combatant with this id: nothing happens at all.
            r is None ==> *final(self) == *old(self),
            r is None <==> (forall|i: int|
                0 <= i < old(self).players@.len() ==> old(self).players@[i].id != id) && (forall|
                i: int,
            |
                0 <= i < old(self).enemies@.len() ==> old(self).enemies@[i].id != id),
            // A hit player follows the precedence rules exactly.
            forall|i: int|
                0 <= i < old(self).players@.len() && old(self).players@[i].id == id ==> {
                    let c = old(self).players@[i];
                    let o = spec_hit_outcome(c, source);
                    &&& r == Some(o)
                    &&& o != HitOutcome::Destroyed
                        ==> final(self).players == old(self).players && final(self).lives1 == old(
                        self,
                    ).lives1 && final(self).lives2 == old(self).lives2
                    &&& o == HitOutcome::Destroyed ==> final(self).players@ == old(
                        self,
                    ).players@.remove(i) && final(self).spec_lives(c.player_no) == old(
                        self,
                    ).spec_lives(c.player_no) - 1 && final(self).spec_lives(
                        (3 - c.player_no) as u8,
                    ) == old(self).spec_lives((3 - c.player_no) as u8)
                    &&& final(self).enemies == old(self).enemies
                },
            // A hit enemy likewise; enemies carry no shield and no lives.
            forall|i: int|
                0 <= i < old(self).enemies@.len() && old(self).enemies@[i].id == id ==> {
                    let c = old(self).enemies@[i];
                    let o = spec_hit_outcome(c, source);
                    &&& r == Some(o)
                    &&& o != HitOutcome::Destroyed ==> *final(self) == *old(self)
                    &&& o == HitOutcome::Destroyed ==> final(self).enemies@ == old(
                        self,
                    ).enemies@.remove(i)
                    &&& final(self).players == old(self).players
                    &&& final(self).lives1 == old(self).lives1
                    &&& final(self).lives2 == old(self).lives2
                },
    {
        if let Some(i) = self.find_player(id) {
            let c = self.players[i];
            let outcome = hit_outcome(&c, source);
            if outcome == HitOutcome::Destroyed {
                self.players.remove(i);
                if c.player_no == 1 {
                    self.lives1 = self.lives1 - 1;
                } else {
                    self.lives2 = self.lives2 - 1;
                }
                proof {
                    let ps = old(self).players@;
                    assert forall|a: int, b: int|
                        0 <= a < b < self.players@.len() implies self.players@[a].player_no
                        != self.players@[b].player_no by {
                        assert(self.players@[a] == if a < i {
                            ps[a]
                        } else {
                            ps[a + 1]
                        });
                        assert(self.players@[b] == if b < i {
                            ps[b]
                        } else {
                            ps[b + 1]
                        });
                    }
                }
            }
            Some(outcome)
        } else if let Some(i) = self.find_enemy(id) {
            let c = self.enemies[i];
            let outcome = hit_outcome(&c, source);
            if outcome == HitOutcome::Destroyed {
                self.enemies.remove(i);
            }
            Some(outcome)
        } else {
            None
        }
    }
}

} // verus!
