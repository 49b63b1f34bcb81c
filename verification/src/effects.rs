//! The explosion/effect queue: resolution outcomes become timed visual
//! entities whose lifetime the core owns; the rendering collaborator only
//! draws them.

use vstd::prelude::*;
use crate::entities::{Explosion, ExplosionEvent, ExplosionType, EXPLOSION_FRAME_MS, MAX_TICK_MS};
use crate::session::{spec_tick_down, tick_down, GameSession};

verus! {

/// The timed entity an effect request turns into: frame zero, with a big
/// blast playing five frames and a small one three.
pub open spec fn spec_explosion_entity(e: ExplosionEvent) -> Explosion {
    Explosion {
        pos: e.pos,
        frame: 0,
        last_frame: if e.explosion_type == ExplosionType::BigExplosion {
            4
        } else {
            2
        },
        frame_timer_ms: EXPLOSION_FRAME_MS,
    }
}

/// One tick of ageing over a column of explosions, in order: an explosion
/// whose frame timer has not run out just counts down; one that finishes
/// its last frame is gone; any other advances one frame.
pub open spec fn spec_aged_explosions(s: Seq<Explosion>, dt_ms: u32) -> Seq<Explosion>
    decreases s.len(),
{
    if s.len() == 0 {
        Seq::empty()
    } else {
        let rest = spec_aged_explosions(s.drop_last(), dt_ms);
        let x = s.last();
        let t = spec_tick_down(x.frame_timer_ms, dt_ms);
        if t > 0 {
            rest.push(Explosion { frame_timer_ms: t, ..x })
        } else if x.frame >= x.last_frame {
            rest
        } else {
            rest.push(Explosion { frame: (x.frame + 1) as u32, frame_timer_ms: EXPLOSION_FRAME_MS, ..x })
        }
    }
}

impl GameSession {
    /// Drains the effect queue into live explosion entities, one per
    /// request, in order.
    #[verifier::rlimit(100)]
    #[verifier::spinoff_prover]
    pub fn spawn_explosion(&mut self)
        requires
            old(self).wf(),
        ensures
            final(self).wf(),
            final(self).effects@.len() == 0,
            final(self).explosions@.len() == old(self).explosions@.len() + old(
                self,
            ).effects@.len(),
            forall|j: int|
                0 <= j < old(self).explosions@.len() ==> final(self).explosions@[j] == old(
                    self,
                ).explosions@[j],
            forall|k: int|
                0 <= k < old(self).effects@.len() ==> final(self).explosions@[old(
                    self,
                ).explosions@.len() + k] == spec_explosion_entity(#[trigger] old(self).effects@[k]),
            *final(self) == (GameSession {
                effects: final(self).effects,
                explosions: final(self).explosions,
                ..*old(self)
            }),
    {
        let mut k: usize = 0;
        while k < self.effects.len()
            invariant
                self.wf(),
                k <= self.effects@.len(),
                self.effects@ == old(self).effects@,
                self.explosions@.len() == old(self).explosions@.len() + k,
                forall|j: int|
                    0 <= j < old(self).explosions@.len() ==> self.explosions@[j] == old(
                        self,
                    ).explosions@[j],
                forall|j: int|
                    0 <= j < k ==> self.explosions@[old(self).explosions@.len() + j]
                        == spec_explosion_entity(#[trigger] old(self).effects@[j]),
                *self == (GameSession { explosions: self.explosions, ..*old(self) }),
            decreases self.effects@.len() - k,
        {
            let e = self.effects[k];
            let last: u32 = if e.explosion_type == ExplosionType::BigExplosion {
                4
            } else {
                2
            };
            self.explosions.push(Explosion {
                pos: e.pos,
                frame: 0,
                last_frame: last,
                frame_timer_ms: EXPLOSION_FRAME_MS,
            });
            k = k + 1;
        }
        self.effects = Vec::new();
    }

    /// Ages every live explosion by one tick and despawns the ones that
    /// played their last frame, as [`spec_aged_explosions`] says.
    pub fn animate_explosion(&mut self, dt_ms: u32)
        requires
            old(self).wf(),
            dt_ms <= MAX_TICK_MS,
        ensures
            final(self).wf(),
            final(self).explosions@ == spec_aged_explosions(old(self).explosions@, dt_ms),
            *final(self) == (GameSession { explosions: final(self).explosions, ..*old(self) }),
    {
        let ghost orig = old(self).explosions@;
        let mut aged: Vec<Explosion> = Vec::new();
        let mut k: usize = 0;
        while k < self.explosions.len()
            invariant
                self.wf(),
                *self == *old(self),
                k <= orig.len(),
                orig == old(self).explosions@,
                aged@ == spec_aged_explosions(orig.take(k as int), dt_ms),
            decreases orig.len() - k,
        {
            proof {
                assert(orig.take(k as int + 1).drop_last() =~= orig.take(k as int));
                assert(orig.take(k as int + 1).last() == orig[k as int]);
            }
            let x = self.explosions[k];
            let t = tick_down(x.frame_timer_ms, dt_ms);
            if t > 0 {
                aged.push(Explosion { frame_timer_ms: t, ..x });
            } else if x.frame >= x.last_frame {
                // Finished its last frame: the entity despawns.
            } else {
                aged.push(Explosion {
                    frame: x.frame + 1,
                    frame_timer_ms: EXPLOSION_FRAME_MS,
                    ..x
                });
            }
            k = k + 1;
        }
        proof {
            assert(orig.take(orig.len() as int) =~= orig);
        }
        self.explosions = aged;
    }
}

} // verus!
