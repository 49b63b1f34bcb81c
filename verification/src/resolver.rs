//! The collision resolver: consumes the unordered stream of pairwise touch
//! events reported by the physics collaborator for one tick and dispatches
//! faction-aware outcomes into despawns, damage and explosion requests.
//!
//! The stream gives no ordering guarantee and may repeat pairs, so the
//! resolver works first-match-wins: the first event that matches a
//! resolution rule consumes and despawns the bullet, and any later event
//! naming that bullet fails its membership test and is skipped. Each bullet
//! therefore produces at most one resolution, and exactly one explosion per
//! resolution, however the events are ordered or duplicated.

use vstd::prelude::*;
use crate::combat::{hit_outcome, spec_hit_outcome, HitOutcome};
use crate::entities::{Combatant, ExplosionEvent, ExplosionType, TouchEvent};
use crate::geom::{spec_clamp_range, Pos, ARENA_HALF_HEIGHT, ARENA_HALF_WIDTH};
use crate::session::GameSession;
use crate::terrain::LevelItem;

verus! {

/// What the first matching rule did with one bullet.
#[derive(Debug, Clone, Copy, PartialEq, Eq, Structural)]
pub enum Outcome {
    /// The tile was Brick: tile destroyed, bullet spent.
    HitBrick { tile_id: u64 },
    /// The tile was Iron: the tile absorbed the bullet and survived.
    HitIron { tile_id: u64 },
    /// The tile was the Home: terminal, the game is lost.
    HitHome { tile_id: u64 },
    /// The bullet left the arena and met the world-edge sensor.
    HitEdge,
    /// A cross-faction, unshielded tank was destroyed.
    DestroyedTank { tank_id: u64 },
    /// A shielded tank deflected the bullet and survived.
    Deflected { tank_id: u64 },
}

/// One consumed bullet and what consumed it. A resolution pass returns one
/// entry per bullet it despawned, never two for the same bullet.
#[derive(Debug, Clone, Copy, PartialEq, Eq, Structural)]
pub struct Resolution {
    pub bullet_id: u64,
    pub outcome: Outcome,
}

/// Whether a bullet with this id exists in the session.
pub open spec fn spec_has_bullet(s: GameSession, id: u64) -> bool {
    exists|i: int| 0 <= i < s.bullets@.len() && s.bullets@[i].id == id
}

/// Index of the bullet with this id (meaningful when it exists).
pub open spec fn spec_bullet_idx(s: GameSession, id: u64) -> int {
    choose|i: int| 0 <= i < s.bullets@.len() && s.bullets@[i].id == id
}

/// Whether a tile with this id exists in the session.
pub open spec fn spec_has_tile(s: GameSession, id: u64) -> bool {
    exists|i: int| 0 <= i < s.tiles@.len() && s.tiles@[i].id == id
}

/// Index of the tile with this id (meaningful when it exists).
pub open spec fn spec_tile_idx(s: GameSession, id: u64) -> int {
    choose|i: int| 0 <= i < s.tiles@.len() && s.tiles@[i].id == id
}

/// Whether a tank (player or enemy) with this id exists in the session.
pub open spec fn spec_has_tank(s: GameSession, id: u64) -> bool {
    (exists|i: int| 0 <= i < s.players@.len() && s.players@[i].id == id) || (exists|i: int|
        0 <= i < s.enemies@.len() && s.enemies@[i].id == id)
}

/// The tank with this id (meaningful when it exists).
pub open spec fn spec_tank(s: GameSession, id: u64) -> Combatant {
    if exists|i: int| 0 <= i < s.players@.len() && s.players@[i].id == id {
        s.players@[choose|i: int| 0 <= i < s.players@.len() && s.players@[i].id == id]
    } else {
        s.enemies@[choose|i: int| 0 <= i < s.enemies@.len() && s.enemies@[i].id == id]
    }
}

/// Whether this bullet id was consumed by one of the resolutions.
pub open spec fn spec_resolved(rs: Seq<Resolution>, bullet_id: u64) -> bool {
    exists|k: int| 0 <= k < rs.len() && rs[k].bullet_id == bullet_id
}

/// Whether this tile id was destroyed by one of the resolutions.
pub open spec fn spec_tile_destroyed(rs: Seq<Resolution>, tile_id: u64) -> bool {
    exists|k: int|
        0 <= k < rs.len() && ((#[trigger] rs[k]).outcome matches Outcome::HitBrick { tile_id: t }
            && t == tile_id)
}

/// Whether this tank id was destroyed by one of the resolutions.
pub open spec fn spec_tank_destroyed(rs: Seq<Resolution>, tank_id: u64) -> bool {
    exists|k: int|
        0 <= k < rs.len() && ((#[trigger] rs[k]).outcome matches Outcome::DestroyedTank {
            tank_id: t,
        } && t == tank_id)
}

/// Whether one of the resolutions destroyed the tank of player `no`.
pub open spec fn spec_player_lost_life(o: GameSession, rs: Seq<Resolution>, no: u8) -> bool {
    exists|i: int|
        0 <= i < o.players@.len() && (#[trigger] o.players@[i]).player_no == no
            && spec_tank_destroyed(rs, o.players@[i].id)
}

/// Whether one of the resolutions hit the Home.
pub open spec fn spec_home_hit(rs: Seq<Resolution>) -> bool {
    exists|k: int| 0 <= k < rs.len() && (#[trigger] rs[k]).outcome matches Outcome::HitHome { .. }
}

/// The collider id an outcome names as the bullet's partner: the tile or
/// tank that was hit, or the world-edge sensor.
pub open spec fn spec_target_id(edge_id: u64, oc: Outcome) -> u64 {
    match oc {
        Outcome::HitBrick { tile_id } => tile_id,
        Outcome::HitIron { tile_id } => tile_id,
        Outcome::HitHome { tile_id } => tile_id,
        Outcome::HitEdge => edge_id,
        Outcome::DestroyedTank { tank_id } => tank_id,
        Outcome::Deflected { tank_id } => tank_id,
    }
}

/// Whether some touch event pairs exactly this resolution's bullet with
/// the partner its outcome reports, in either order: the resolver invents
/// no resolution, each one answers an event of the pass.
pub open spec fn spec_resolution_from_events(
    edge_id: u64,
    events: Seq<TouchEvent>,
    r: Resolution,
) -> bool {
    exists|j: int|
        0 <= j < events.len() && (((#[trigger] events[j]).a == r.bullet_id && events[j].b
            == spec_target_id(edge_id, r.outcome)) || (events[j].b == r.bullet_id && events[j].a
            == spec_target_id(edge_id, r.outcome)))
}

/// Where a bullet despawned at the world edge leaves its explosion: its
/// position clamped back onto the arena rectangle.
pub open spec fn spec_edge_pos(p: Pos) -> Pos {
    Pos {
        x: spec_clamp_range(p.x as int, -ARENA_HALF_WIDTH as int, ARENA_HALF_WIDTH as int) as i32,
        y: spec_clamp_range(
            p.y as int,
            -ARENA_HALF_HEIGHT as int,
            ARENA_HALF_HEIGHT as int,
        ) as i32,
    }
}

/// The one explosion a resolution produces, placed and sized by what was
/// hit, in terms of the session state at the start of the pass.
pub open spec fn spec_explosion_for(o: GameSession, r: Resolution) -> ExplosionEvent {
    match r.outcome {
        Outcome::HitBrick { .. } => ExplosionEvent {
            pos: o.bullets@[spec_bullet_idx(o, r.bullet_id)].pos,
            explosion_type: ExplosionType::BulletExplosion,
        },
        Outcome::HitIron { .. } => ExplosionEvent {
            pos: o.bullets@[spec_bullet_idx(o, r.bullet_id)].pos,
            explosion_type: ExplosionType::BulletExplosion,
        },
        Outcome::HitHome { tile_id } => ExplosionEvent {
            pos: o.tiles@[spec_tile_idx(o, tile_id)].pos,
            explosion_type: ExplosionType::BigExplosion,
        },
        Outcome::HitEdge => ExplosionEvent {
            pos: spec_edge_pos(o.bullets@[spec_bullet_idx(o, r.bullet_id)].pos),
            explosion_type: ExplosionType::BulletExplosion,
        },
        Outcome::DestroyedTank { tank_id } => ExplosionEvent {
            pos: spec_tank(o, tank_id).pos,
            explosion_type: ExplosionType::BigExplosion,
        },
        Outcome::Deflected { tank_id } => ExplosionEvent {
            pos: spec_tank(o, tank_id).pos,
            explosion_type: ExplosionType::BulletExplosion,
        },
    }
}

/// A resolution only ever reports a rule that really matched at the start
/// of the pass: the bullet existed, the named tile or tank existed with the
/// named kind, and damage respected faction and shield.
pub open spec fn spec_resolution_valid(o: GameSession, r: Resolution) -> bool {
    &&& spec_has_bullet(o, r.bullet_id)
    &&& match r.outcome {
        Outcome::HitBrick { tile_id } => spec_has_tile(o, tile_id) && o.tiles@[spec_tile_idx(
            o,
            tile_id,
        )].kind == LevelItem::BrickWall,
        Outcome::HitIron { tile_id } => spec_has_tile(o, tile_id) && o.tiles@[spec_tile_idx(
            o,
            tile_id,
        )].kind == LevelItem::IronWall,
        Outcome::HitHome { tile_id } => spec_has_tile(o, tile_id) && o.tiles@[spec_tile_idx(
            o,
            tile_id,
        )].kind == LevelItem::Home,
        Outcome::HitEdge => true,
        Outcome::DestroyedTank { tank_id } => spec_has_tank(o, tank_id) && spec_tank(
            o,
            tank_id,
        ).faction != o.bullets@[spec_bullet_idx(o, r.bullet_id)].owner && spec_tank(
            o,
            tank_id,
        ).shield_ms == 0,
        Outcome::Deflected { tank_id } => spec_has_tank(o, tank_id) && spec_tank(
            o,
            tank_id,
        ).faction != o.bullets@[spec_bullet_idx(o, r.bullet_id)].owner && spec_tank(
            o,
            tank_id,
        ).shield_ms > 0,
    }
}

/// Fields a resolution pass never touches.
pub open spec fn spec_resolve_frame(o: GameSession, n: GameSession) -> bool {
    &&& n.state == o.state
    &&& n.mode == o.mode
    &&& n.levels == o.levels
    &&& n.level_index == o.level_index
    &&& n.spawned_enemies == o.spawned_enemies
    &&& n.pending_spawns == o.pending_spawns
    &&& n.explosions == o.explosions
    &&& n.game_over_ms == o.game_over_ms
    &&& n.next_id == o.next_id
    &&& n.edge_id == o.edge_id
}

/// Every resolution is valid against the pass's starting state, and no
/// bullet is named twice: a bullet resolves at most once per pass.
pub open spec fn spec_resolutions_ok(o: GameSession, rs: Seq<Resolution>) -> bool {
    &&& forall|k: int| 0 <= k < rs.len() ==> spec_resolution_valid(o, #[trigger] rs[k])
    &&& forall|k: int, l: int| 0 <= k < l < rs.len() ==> rs[k].bullet_id != rs[l].bullet_id
}

/// A bullet survives the pass untouched if and only if no resolution
/// consumed it; no bullet appears from nowhere.
pub open spec fn spec_bullets_post(o: GameSession, n: GameSession, rs: Seq<Resolution>) -> bool {
    &&& forall|j: int| 0 <= j < n.bullets@.len() ==> o.bullets@.contains(#[trigger] n.bullets@[j])
    &&& forall|i: int|
        0 <= i < o.bullets@.len() ==> (n.bullets@.contains(#[trigger] o.bullets@[i])
            <==> !spec_resolved(rs, o.bullets@[i].id))
}

/// A tile survives the pass untouched if and only if no resolution
/// destroyed it (only Brick ever is); no tile appears from nowhere.
pub open spec fn spec_tiles_post(o: GameSession, n: GameSession, rs: Seq<Resolution>) -> bool {
    &&& forall|j: int| 0 <= j < n.tiles@.len() ==> o.tiles@.contains(#[trigger] n.tiles@[j])
    &&& forall|i: int|
        0 <= i < o.tiles@.len() ==> (n.tiles@.contains(#[trigger] o.tiles@[i])
            <==> !spec_tile_destroyed(rs, o.tiles@[i].id))
}

/// A tank survives the pass untouched if and only if no resolution
/// destroyed it, and each player whose tank was destroyed lost exactly one
/// life.
pub open spec fn spec_tanks_post(o: GameSession, n: GameSession, rs: Seq<Resolution>) -> bool {
    &&& forall|j: int| 0 <= j < n.players@.len() ==> o.players@.contains(#[trigger] n.players@[j])
    &&& forall|i: int|
        0 <= i < o.players@.len() ==> (n.players@.contains(#[trigger] o.players@[i])
            <==> !spec_tank_destroyed(rs, o.players@[i].id))
    &&& forall|j: int| 0 <= j < n.enemies@.len() ==> o.enemies@.contains(#[trigger] n.enemies@[j])
    &&& forall|i: int|
        0 <= i < o.enemies@.len() ==> (n.enemies@.contains(#[trigger] o.enemies@[i])
            <==> !spec_tank_destroyed(rs, o.enemies@[i].id))
    &&& n.lives1 == o.lives1 - (if spec_player_lost_life(o, rs, 1) {
        1int
    } else {
        0int
    })
    &&& n.lives2 == o.lives2 - (if spec_player_lost_life(o, rs, 2) {
        1int
    } else {
        0int
    })
}

/// Exactly one explosion request is appended per resolution, in order,
/// placed as [`spec_explosion_for`] says; earlier requests stay untouched.
pub open spec fn spec_effects_post(o: GameSession, n: GameSession, rs: Seq<Resolution>) -> bool {
    &&& n.effects@.len() == o.effects@.len() + rs.len()
    &&& forall|j: int| 0 <= j < o.effects@.len() ==> n.effects@[j] == #[trigger] o.effects@[j]
    &&& forall|k: int|
        0 <= k < rs.len() ==> n.effects@[o.effects@.len() + k] == spec_explosion_for(
            o,
            #[trigger] rs[k],
        )
}

/// The Home-destroyed signal is raised exactly when a resolution hit the
/// Home (and stays raised once set).
pub open spec fn spec_home_post(o: GameSession, n: GameSession, rs: Seq<Resolution>) -> bool {
    n.home_destroyed == (o.home_destroyed || spec_home_hit(rs))
}

/// Full contract of one resolution pass.
pub open spec fn spec_resolve_post(o: GameSession, n: GameSession, rs: Seq<Resolution>) -> bool {
    &&& spec_resolve_frame(o, n)
    &&& spec_resolutions_ok(o, rs)
    &&& spec_bullets_post(o, n, rs)
    &&& spec_tiles_post(o, n, rs)
    &&& spec_tanks_post(o, n, rs)
    &&& spec_effects_post(o, n, rs)
    &&& spec_home_post(o, n, rs)
}

/// Whether ordering an id pair as (bullet, target) matches a resolution
/// rule in state `s`: a live bullet together with a bullet-stopping tile,
/// the world edge, or a cross-faction tank. Friendly tanks, water and
/// trees match nothing.
pub open spec fn spec_rule_matches(s: GameSession, bid: u64, oid: u64) -> bool {
    &&& spec_has_bullet(s, bid)
    &&& {
        ||| spec_has_tile(s, oid) && s.tiles@[spec_tile_idx(s, oid)].kind.spec_stops_bullets()
        ||| oid == s.edge_id
        ||| spec_has_tank(s, oid) && spec_tank(s, oid).faction != s.bullets@[spec_bullet_idx(
            s,
            bid,
        )].owner
    }
}

/// Whether a touch event still matches any resolution rule in state `s`,
/// with either side taken as the bullet.
pub open spec fn spec_event_matches(s: GameSession, ev: TouchEvent) -> bool {
    spec_rule_matches(s, ev.a, ev.b) || spec_rule_matches(s, ev.b, ev.a)
}

/// An event that matches no rule never matches again later in the same
/// pass: resolution only ever removes entities.
proof fn lemma_no_rule_match_preserved(
    o: GameSession,
    m: GameSession,
    n: GameSession,
    rs_m: Seq<Resolution>,
    rs_n: Seq<Resolution>,
    bid: u64,
    oid: u64,
)
    requires
        o.wf(),
        spec_resolve_post(o, m, rs_m),
        spec_resolve_post(o, n, rs_n),
        rs_m.len() <= rs_n.len(),
        forall|j: int| 0 <= j < rs_m.len() ==> rs_n[j] == rs_m[j],
        !spec_rule_matches(m, bid, oid),
    ensures
        !spec_rule_matches(n, bid, oid),
{
    if spec_rule_matches(n, bid, oid) {
        // The bullet alive in n was alive in m, with the same owner.
        let nj = choose|j: int| 0 <= j < n.bullets@.len() && n.bullets@[j].id == bid;
        let x = n.bullets@[nj];
        assert(o.bullets@.contains(x));
        let oi = choose|i: int| 0 <= i < o.bullets@.len() && o.bullets@[i] == x;
        assert(n.bullets@.contains(o.bullets@[oi]));
        assert(!spec_resolved(rs_n, x.id));
        assert(!spec_resolved(rs_m, x.id)) by {
            if spec_resolved(rs_m, x.id) {
                let k = choose|k: int| 0 <= k < rs_m.len() && rs_m[k].bullet_id == x.id;
                assert(rs_n[k] == rs_m[k]);
            }
        }
        assert(m.bullets@.contains(o.bullets@[oi]));
        assert(spec_has_bullet(m, bid));
        // Any element of m or n carrying this id equals x, because both
        // columns draw from o, whose ids are unique.
        assert(m.bullets@[spec_bullet_idx(m, bid)] == x) by {
            let mj = spec_bullet_idx(m, bid);
            assert(0 <= mj < m.bullets@.len() && m.bullets@[mj].id == bid);
            assert(o.bullets@.contains(m.bullets@[mj]));
            let oi2 = choose|i: int| 0 <= i < o.bullets@.len() && o.bullets@[i] == m.bullets@[mj];
            if oi2 != oi {
                assert(o.bullets@[oi2].id != o.bullets@[oi].id);
            }
        }
        assert(n.bullets@[spec_bullet_idx(n, bid)] == x) by {
            let j2 = spec_bullet_idx(n, bid);
            assert(0 <= j2 < n.bullets@.len() && n.bullets@[j2].id == bid);
            assert(o.bullets@.contains(n.bullets@[j2]));
            let oi2 = choose|i: int| 0 <= i < o.bullets@.len() && o.bullets@[i] == n.bullets@[j2];
            if oi2 != oi {
                assert(o.bullets@[oi2].id != o.bullets@[oi].id);
            }
        }
        // The target alive in n was alive in m in the same form.
        if spec_has_tile(n, oid) && n.tiles@[spec_tile_idx(n, oid)].kind.spec_stops_bullets() {
            let tj = spec_tile_idx(n, oid);
            let t = n.tiles@[tj];
            assert(o.tiles@.contains(t));
            let ti = choose|i: int| 0 <= i < o.tiles@.len() && o.tiles@[i] == t;
            assert(n.tiles@.contains(o.tiles@[ti]));
            assert(!spec_tile_destroyed(rs_n, t.id));
            assert(!spec_tile_destroyed(rs_m, t.id)) by {
                if spec_tile_destroyed(rs_m, t.id) {
                    let k = choose|k: int|
                        0 <= k < rs_m.len() && ((#[trigger] rs_m[k]).outcome
                            matches Outcome::HitBrick { tile_id: tt } && tt == t.id);
                    assert(rs_n[k] == rs_m[k]);
                }
            }
            assert(m.tiles@.contains(o.tiles@[ti]));
            assert(spec_has_tile(m, oid));
            assert(m.tiles@[spec_tile_idx(m, oid)] == t) by {
                let mj = spec_tile_idx(m, oid);
                assert(0 <= mj < m.tiles@.len() && m.tiles@[mj].id == oid);
                assert(o.tiles@.contains(m.tiles@[mj]));
                let ti2 = choose|i: int| 0 <= i < o.tiles@.len() && o.tiles@[i] == m.tiles@[mj];
                if ti2 != ti {
                    assert(o.tiles@[ti2].id != o.tiles@[ti].id);
                }
            }
            assert(spec_rule_matches(m, bid, oid));
        } else if oid == n.edge_id {
            assert(m.edge_id == o.edge_id && n.edge_id == o.edge_id);
            assert(spec_rule_matches(m, bid, oid));
        } else {
            // A live cross-faction tank.
            let c = spec_tank(n, oid);
            if exists|i: int| 0 <= i < n.players@.len() && n.players@[i].id == oid {
                let pj = choose|i: int| 0 <= i < n.players@.len() && n.players@[i].id == oid;
                let p = n.players@[pj];
                assert(o.players@.contains(p));
                let pi = choose|i: int| 0 <= i < o.players@.len() && o.players@[i] == p;
                assert(n.players@.contains(o.players@[pi]));
                assert(!spec_tank_destroyed(rs_n, p.id));
                assert(!spec_tank_destroyed(rs_m, p.id)) by {
                    if spec_tank_destroyed(rs_m, p.id) {
                        let k = choose|k: int|
                            0 <= k < rs_m.len() && ((#[trigger] rs_m[k]).outcome
                                matches Outcome::DestroyedTank { tank_id: tt } && tt == p.id);
                        assert(rs_n[k] == rs_m[k]);
                    }
                }
                assert(m.players@.contains(o.players@[pi]));
                assert(spec_has_tank(m, oid));
                assert(c == p) by {
                    let j2 = choose|i: int| 0 <= i < n.players@.len() && n.players@[i].id == oid;
                    assert(o.players@.contains(n.players@[j2]));
                    let pi2 = choose|i: int|
                        0 <= i < o.players@.len() && o.players@[i] == n.players@[j2];
                    if pi2 != pi {
                        assert(o.players@[pi2].id != o.players@[pi].id);
                    }
                }
                assert(spec_tank(m, oid) == p) by {
                    assert(exists|i: int| 0 <= i < m.players@.len() && m.players@[i].id == oid);
                    let mj = choose|i: int| 0 <= i < m.players@.len() && m.players@[i].id == oid;
                    assert(o.players@.contains(m.players@[mj]));
                    let pi2 = choose|i: int|
                        0 <= i < o.players@.len() && o.players@[i] == m.players@[mj];
                    if pi2 != pi {
                        assert(o.players@[pi2].id != o.players@[pi].id);
                    }
                }
                assert(spec_rule_matches(m, bid, oid));
            } else {
                let ej = choose|i: int| 0 <= i < n.enemies@.len() && n.enemies@[i].id == oid;
                let p = n.enemies@[ej];
                assert(o.enemies@.contains(p));
                let pi = choose|i: int| 0 <= i < o.enemies@.len() && o.enemies@[i] == p;
                assert(n.enemies@.contains(o.enemies@[pi]));
                assert(!spec_tank_destroyed(rs_n, p.id));
                assert(!spec_tank_destroyed(rs_m, p.id)) by {
                    if spec_tank_destroyed(rs_m, p.id) {
                        let k = choose|k: int|
                            0 <= k < rs_m.len() && ((#[trigger] rs_m[k]).outcome
                                matches Outcome::DestroyedTank { tank_id: tt } && tt == p.id);
                        assert(rs_n[k] == rs_m[k]);
                    }
                }
                assert(m.enemies@.contains(o.enemies@[pi]));
                assert(spec_has_tank(m, oid));
                // No player in o (hence in m or n) carries an enemy id.
                assert(!(exists|i: int| 0 <= i < o.players@.len() && o.players@[i].id == oid)) by {
                    if exists|i: int| 0 <= i < o.players@.len() && o.players@[i].id == oid {
                        let q = choose|i: int|
                            0 <= i < o.players@.len() && o.players@[i].id == oid;
                        assert(o.players@[q].id != o.enemies@[pi].id);
                    }
                }
                assert(!(exists|i: int| 0 <= i < n.players@.len() && n.players@[i].id == oid)) by {
                    if exists|i: int| 0 <= i < n.players@.len() && n.players@[i].id == oid {
                        let q = choose|i: int|
                            0 <= i < n.players@.len() && n.players@[i].id == oid;
                        assert(o.players@.contains(n.players@[q]));
                        let q2 = choose|i: int|
                            0 <= i < o.players@.len() && o.players@[i] == n.players@[q];
                        assert(o.players@[q2].id != o.enemies@[pi].id);
                    }
                }
                assert(!(exists|i: int| 0 <= i < m.players@.len() && m.players@[i].id == oid)) by {
                    if exists|i: int| 0 <= i < m.players@.len() && m.players@[i].id == oid {
                        let q = choose|i: int|
                            0 <= i < m.players@.len() && m.players@[i].id == oid;
                        assert(o.players@.contains(m.players@[q]));
                        let q2 = choose|i: int|
                            0 <= i < o.players@.len() && o.players@[i] == m.players@[q];
                        assert(o.players@[q2].id != o.enemies@[pi].id);
                    }
                }
                assert(c == p) by {
                    let j2 = choose|i: int| 0 <= i < n.enemies@.len() && n.enemies@[i].id == oid;
                    assert(o.enemies@.contains(n.enemies@[j2]));
                    let pi2 = choose|i: int|
                        0 <= i < o.enemies@.len() && o.enemies@[i] == n.enemies@[j2];
                    if pi2 != pi {
                        assert(o.enemies@[pi2].id != o.enemies@[pi].id);
                    }
                }
                assert(spec_tank(m, oid) == p) by {
                    assert(exists|i: int| 0 <= i < m.enemies@.len() && m.enemies@[i].id == oid);
                    let mj = choose|i: int| 0 <= i < m.enemies@.len() && m.enemies@[i].id == oid;
                    assert(o.enemies@.contains(m.enemies@[mj]));
                    let pi2 = choose|i: int|
                        0 <= i < o.enemies@.len() && o.enemies@[i] == m.enemies@[mj];
                    if pi2 != pi {
                        assert(o.enemies@[pi2].id != o.enemies@[pi].id);
                    }
                }
                assert(spec_rule_matches(m, bid, oid));
            }
        }
    }
}

/// Event-level wrapper of [`lemma_no_rule_match_preserved`].
proof fn lemma_no_match_preserved(
    o: GameSession,
    m: GameSession,
    n: GameSession,
    rs_m: Seq<Resolution>,
    rs_n: Seq<Resolution>,
    ev: TouchEvent,
)
    requires
        o.wf(),
        spec_resolve_post(o, m, rs_m),
        spec_resolve_post(o, n, rs_n),
        rs_m.len() <= rs_n.len(),
        forall|j: int| 0 <= j < rs_m.len() ==> rs_n[j] == rs_m[j],
        !spec_event_matches(m, ev),
    ensures
        !spec_event_matches(n, ev),
{
    lemma_no_rule_match_preserved(o, m, n, rs_m, rs_n, ev.a, ev.b);
    lemma_no_rule_match_preserved(o, m, n, rs_m, rs_n, ev.b, ev.a);
}

/// Before any event is processed, the pass contract holds of the unchanged
/// session and the empty resolution list.
proof fn lemma_resolve_init(o: GameSession)
    ensures
        spec_resolve_post(o, o, Seq::<Resolution>::empty()),
{
    let rs = Seq::<Resolution>::empty();
    assert forall|i: int| 0 <= i < o.bullets@.len() implies o.bullets@.contains(
        #[trigger] o.bullets@[i],
    ) by {}
    assert forall|i: int| 0 <= i < o.tiles@.len() implies o.tiles@.contains(
        #[trigger] o.tiles@[i],
    ) by {}
    assert forall|i: int| 0 <= i < o.players@.len() implies o.players@.contains(
        #[trigger] o.players@[i],
    ) by {}
    assert forall|i: int| 0 <= i < o.enemies@.len() implies o.enemies@.contains(
        #[trigger] o.enemies@[i],
    ) by {}
}

/// Removing index `bi` from a bullet column with pairwise-distinct ids and
/// appending the matching resolution keeps the survive-iff-unresolved
/// relation between the starting column and the current one.
proof fn lemma_bullets_step(
    o: GameSession,
    prev: GameSession,
    n: GameSession,
    rs: Seq<Resolution>,
    r: Resolution,
    bi: int,
)
    requires
        o.wf(),
        prev.wf(),
        spec_bullets_post(o, prev, rs),
        spec_resolutions_ok(o, rs),
        spec_resolution_valid(o, r),
        0 <= bi < prev.bullets@.len(),
        prev.bullets@[bi].id == r.bullet_id,
        n.bullets@ == prev.bullets@.remove(bi),
    ensures
        spec_bullets_post(o, n, rs.push(r)),
        spec_resolutions_ok(o, rs.push(r)),
{
    let rs2 = rs.push(r);
    let b = prev.bullets@[bi];
    prev.bullets@.remove_ensures(bi);
    // The consumed bullet was still unresolved, so the new list stays
    // duplicate-free.
    assert(o.bullets@.contains(b));
    let ghost oi = choose|i: int| 0 <= i < o.bullets@.len() && o.bullets@[i] == b;
    assert(prev.bullets@.contains(o.bullets@[oi]));
    assert(!spec_resolved(rs, b.id));
    assert forall|k: int, l: int| 0 <= k < l < rs2.len() implies rs2[k].bullet_id
        != rs2[l].bullet_id by {
        if l == rs.len() {
            assert(rs2[k] == rs[k]);
            assert(!spec_resolved(rs, b.id));
        }
    }
    assert forall|k: int| 0 <= k < rs2.len() implies spec_resolution_valid(o, #[trigger] rs2[k]) by {
        if k < rs.len() {
            assert(rs2[k] == rs[k]);
        }
    }
    // Containment of survivors.
    assert forall|j: int| 0 <= j < n.bullets@.len() implies o.bullets@.contains(
        #[trigger] n.bullets@[j],
    ) by {
        if j < bi {
            assert(n.bullets@[j] == prev.bullets@[j]);
        } else {
            assert(n.bullets@[j] == prev.bullets@[j + 1]);
        }
    }
    // Survive-iff-unresolved.
    assert forall|i: int| 0 <= i < o.bullets@.len() implies (n.bullets@.contains(
        #[trigger] o.bullets@[i],
    ) <==> !spec_resolved(rs2, o.bullets@[i].id)) by {
        let x = o.bullets@[i];
        if x.id == b.id {
            // x is the consumed bullet (ids unique in o), now resolved and gone.
            assert(spec_resolved(rs2, x.id)) by {
                assert(rs2[rs.len() as int] == r);
            }
            assert forall|j: int| 0 <= j < n.bullets@.len() implies n.bullets@[j] != x by {
                let pj = if j < bi {
                    j
                } else {
                    j + 1
                };
                assert(n.bullets@[j] == prev.bullets@[pj]);
                assert(pj != bi);
                assert(prev.bullets@[pj].id != prev.bullets@[bi].id);
            }
            assert(!n.bullets@.contains(x));
        } else {
            assert(spec_resolved(rs2, x.id) <==> spec_resolved(rs, x.id)) by {
                if spec_resolved(rs2, x.id) {
                    let k = choose|k: int| 0 <= k < rs2.len() && rs2[k].bullet_id == x.id;
                    assert(k < rs.len());
                    assert(rs[k] == rs2[k]);
                } else {
                }
                if spec_resolved(rs, x.id) {
                    let k = choose|k: int| 0 <= k < rs.len() && rs[k].bullet_id == x.id;
                    assert(rs2[k] == rs[k]);
                }
            }
            if prev.bullets@.contains(x) {
                let pj = choose|j: int| 0 <= j < prev.bullets@.len() && prev.bullets@[j] == x;
                assert(pj != bi);
                if pj < bi {
                    assert(n.bullets@[pj] == x);
                } else {
                    assert(n.bullets@[pj - 1] == x);
                }
                assert(n.bullets@.contains(x));
            } else {
                assert forall|j: int| 0 <= j < n.bullets@.len() implies n.bullets@[j] != x by {
                    let pj = if j < bi {
                        j
                    } else {
                        j + 1
                    };
                    assert(n.bullets@[j] == prev.bullets@[pj]);
                    assert(prev.bullets@.contains(prev.bullets@[pj]));
                }
                assert(!n.bullets@.contains(x));
            }
        }
    }
}

/// Appending the explosion of the new resolution keeps the one-explosion-
/// per-resolution relation.
proof fn lemma_effects_step(
    o: GameSession,
    prev: GameSession,
    n: GameSession,
    rs: Seq<Resolution>,
    r: Resolution,
)
    requires
        spec_effects_post(o, prev, rs),
        n.effects@ == prev.effects@.push(spec_explosion_for(o, r)),
    ensures
        spec_effects_post(o, n, rs.push(r)),
{
    let rs2 = rs.push(r);
    assert forall|k: int| 0 <= k < rs2.len() implies n.effects@[o.effects@.len() + k]
        == spec_explosion_for(o, #[trigger] rs2[k]) by {
        if k < rs.len() {
            assert(rs2[k] == rs[k]);
            assert(n.effects@[o.effects@.len() + k] == prev.effects@[o.effects@.len() + k]);
        } else {
            assert(rs2[k] == r);
        }
    }
}

/// A resolution that destroys no tile keeps the tile relation.
proof fn lemma_tiles_keep(
    o: GameSession,
    prev: GameSession,
    n: GameSession,
    rs: Seq<Resolution>,
    r: Resolution,
)
    requires
        spec_tiles_post(o, prev, rs),
        n.tiles@ == prev.tiles@,
        !(r.outcome matches Outcome::HitBrick { .. }),
    ensures
        spec_tiles_post(o, n, rs.push(r)),
{
    let rs2 = rs.push(r);
    assert forall|i: int| 0 <= i < o.tiles@.len() implies (n.tiles@.contains(
        #[trigger] o.tiles@[i],
    ) <==> !spec_tile_destroyed(rs2, o.tiles@[i].id)) by {
        let id = o.tiles@[i].id;
        assert(spec_tile_destroyed(rs2, id) <==> spec_tile_destroyed(rs, id)) by {
            if spec_tile_destroyed(rs2, id) {
                let k = choose|k: int|
                    0 <= k < rs2.len() && ((#[trigger] rs2[k]).outcome matches Outcome::HitBrick {
                        tile_id: t,
                    } && t == id);
                assert(k < rs.len());
                assert(rs[k] == rs2[k]);
            }
            if spec_tile_destroyed(rs, id) {
                let k = choose|k: int|
                    0 <= k < rs.len() && ((#[trigger] rs[k]).outcome matches Outcome::HitBrick {
                        tile_id: t,
                    } && t == id);
                assert(rs2[k] == rs[k]);
            }
        }
    }
}

/// A resolution that destroys no tank keeps the tank-and-lives relation.
proof fn lemma_tanks_keep(
    o: GameSession,
    prev: GameSession,
    n: GameSession,
    rs: Seq<Resolution>,
    r: Resolution,
)
    requires
        spec_tanks_post(o, prev, rs),
        n.players@ == prev.players@,
        n.enemies@ == prev.enemies@,
        n.lives1 == prev.lives1,
        n.lives2 == prev.lives2,
        !(r.outcome matches Outcome::DestroyedTank { .. }),
    ensures
        spec_tanks_post(o, n, rs.push(r)),
{
    let rs2 = rs.push(r);
    assert forall|id: u64| spec_tank_destroyed(rs2, id) <==> spec_tank_destroyed(rs, id) by {
        if spec_tank_destroyed(rs2, id) {
            let k = choose|k: int|
                0 <= k < rs2.len() && ((#[trigger] rs2[k]).outcome matches Outcome::DestroyedTank {
                    tank_id: t,
                } && t == id);
            assert(k < rs.len());
            assert(rs[k] == rs2[k]);
        }
        if spec_tank_destroyed(rs, id) {
            let k = choose|k: int|
                0 <= k < rs.len() && ((#[trigger] rs[k]).outcome matches Outcome::DestroyedTank {
                    tank_id: t,
                } && t == id);
            assert(rs2[k] == rs[k]);
        }
    }
    assert(spec_player_lost_life(o, rs2, 1) <==> spec_player_lost_life(o, rs, 1));
    assert(spec_player_lost_life(o, rs2, 2) <==> spec_player_lost_life(o, rs, 2));
}

/// A resolution that hits no Home keeps the Home signal.
proof fn lemma_home_keep(
    o: GameSession,
    prev: GameSession,
    n: GameSession,
    rs: Seq<Resolution>,
    r: Resolution,
)
    requires
        spec_home_post(o, prev, rs),
        n.home_destroyed == prev.home_destroyed,
        !(r.outcome matches Outcome::HitHome { .. }),
    ensures
        spec_home_post(o, n, rs.push(r)),
{
    let rs2 = rs.push(r);
    assert(spec_home_hit(rs2) <==> spec_home_hit(rs)) by {
        if spec_home_hit(rs2) {
            let k = choose|k: int|
                0 <= k < rs2.len() && (#[trigger] rs2[k]).outcome matches Outcome::HitHome { .. };
            assert(k < rs.len());
            assert(rs[k] == rs2[k]);
        }
        if spec_home_hit(rs) {
            let k = choose|k: int|
                0 <= k < rs.len() && (#[trigger] rs[k]).outcome matches Outcome::HitHome { .. };
            assert(rs2[k] == rs[k]);
        }
    }
}

/// A Home hit raises the signal.
proof fn lemma_home_set(
    o: GameSession,
    prev: GameSession,
    n: GameSession,
    rs: Seq<Resolution>,
    r: Resolution,
)
    requires
        spec_home_post(o, prev, rs),
        n.home_destroyed,
        r.outcome matches Outcome::HitHome { .. },
    ensures
        spec_home_post(o, n, rs.push(r)),
{
    let rs2 = rs.push(r);
    assert(rs2[rs.len() as int] == r);
    assert(spec_home_hit(rs2));
}

/// Destroying the brick tile at index `ti` and appending the matching
/// resolution keeps the tile relation.
proof fn lemma_tiles_step(
    o: GameSession,
    prev: GameSession,
    n: GameSession,
    rs: Seq<Resolution>,
    r: Resolution,
    ti: int,
)
    requires
        o.wf(),
        prev.wf(),
        spec_tiles_post(o, prev, rs),
        0 <= ti < prev.tiles@.len(),
        (r.outcome matches Outcome::HitBrick { tile_id: t } && t == prev.tiles@[ti].id),
        n.tiles@ == prev.tiles@.remove(ti),
    ensures
        spec_tiles_post(o, n, rs.push(r)),
{
    let rs2 = rs.push(r);
    let t = prev.tiles@[ti];
    prev.tiles@.remove_ensures(ti);
    assert(o.tiles@.contains(t));
    assert forall|j: int| 0 <= j < n.tiles@.len() implies o.tiles@.contains(
        #[trigger] n.tiles@[j],
    ) by {
        if j < ti {
            assert(n.tiles@[j] == prev.tiles@[j]);
        } else {
            assert(n.tiles@[j] == prev.tiles@[j + 1]);
        }
    }
    assert forall|i: int| 0 <= i < o.tiles@.len() implies (n.tiles@.contains(#[trigger] o.tiles@[i])
        <==> !spec_tile_destroyed(rs2, o.tiles@[i].id)) by {
        let x = o.tiles@[i];
        if x.id == t.id {
            assert(spec_tile_destroyed(rs2, x.id)) by {
                assert(rs2[rs.len() as int] == r);
            }
            assert forall|j: int| 0 <= j < n.tiles@.len() implies n.tiles@[j] != x by {
                let pj = if j < ti {
                    j
                } else {
                    j + 1
                };
                assert(n.tiles@[j] == prev.tiles@[pj]);
                assert(prev.tiles@[pj].id != prev.tiles@[ti].id);
            }
            assert(!n.tiles@.contains(x));
        } else {
            assert(spec_tile_destroyed(rs2, x.id) <==> spec_tile_destroyed(rs, x.id)) by {
                if spec_tile_destroyed(rs2, x.id) {
                    let k = choose|k: int|
                        0 <= k < rs2.len() && ((#[trigger] rs2[k]).outcome
                            matches Outcome::HitBrick { tile_id: tt } && tt == x.id);
                    assert(k < rs.len());
                    assert(rs[k] == rs2[k]);
                }
                if spec_tile_destroyed(rs, x.id) {
                    let k = choose|k: int|
                        0 <= k < rs.len() && ((#[trigger] rs[k]).outcome matches Outcome::HitBrick {
                            tile_id: tt,
                        } && tt == x.id);
                    assert(rs2[k] == rs[k]);
                }
            }
            if prev.tiles@.contains(x) {
                let pj = choose|j: int| 0 <= j < prev.tiles@.len() && prev.tiles@[j] == x;
                assert(pj != ti);
                if pj < ti {
                    assert(n.tiles@[pj] == x);
                } else {
                    assert(n.tiles@[pj - 1] == x);
                }
            } else {
                assert forall|j: int| 0 <= j < n.tiles@.len() implies n.tiles@[j] != x by {
                    let pj = if j < ti {
                        j
                    } else {
                        j + 1
                    };
                    assert(n.tiles@[j] == prev.tiles@[pj]);
                    assert(prev.tiles@.contains(prev.tiles@[pj]));
                }
            }
        }
    }
}

/// Destroying the tank with id `tid` (a player at index `pi` of the
/// players, or an enemy at index `ei` of the enemies) and appending the
/// matching resolution keeps the tank-and-lives relation.
proof fn lemma_tanks_destroy(
    o: GameSession,
    prev: GameSession,
    n: GameSession,
    rs: Seq<Resolution>,
    r: Resolution,
    tid: u64,
    is_player: bool,
    idx: int,
)
    requires
        o.wf(),
        prev.wf(),
        spec_tanks_post(o, prev, rs),
        (r.outcome matches Outcome::DestroyedTank { tank_id: t } && t == tid),
        is_player ==> {
            &&& 0 <= idx < prev.players@.len()
            &&& prev.players@[idx].id == tid
            &&& n.players@ == prev.players@.remove(idx)
            &&& n.enemies@ == prev.enemies@
            &&& n.lives1 == prev.lives1 - (if prev.players@[idx].player_no == 1 {
                1int
            } else {
                0int
            })
            &&& n.lives2 == prev.lives2 - (if prev.players@[idx].player_no == 2 {
                1int
            } else {
                0int
            })
        },
        !is_player ==> {
            &&& 0 <= idx < prev.enemies@.len()
            &&& prev.enemies@[idx].id == tid
            &&& n.enemies@ == prev.enemies@.remove(idx)
            &&& n.players@ == prev.players@
            &&& n.lives1 == prev.lives1
            &&& n.lives2 == prev.lives2
        },
    ensures
        spec_tanks_post(o, n, rs.push(r)),
{
    let rs2 = rs.push(r);
    assert(rs2[rs.len() as int] == r);
    assert(spec_tank_destroyed(rs2, tid));
    // Destruction lists only grow by the new tank id.
    assert forall|id: u64| id != tid implies (spec_tank_destroyed(rs2, id) <==> spec_tank_destroyed(
        rs,
        id,
    )) by {
        if spec_tank_destroyed(rs2, id) {
            let k = choose|k: int|
                0 <= k < rs2.len() && ((#[trigger] rs2[k]).outcome matches Outcome::DestroyedTank {
                    tank_id: t,
                } && t == id);
            assert(k < rs.len());
            assert(rs[k] == rs2[k]);
        }
        if spec_tank_destroyed(rs, id) {
            let k = choose|k: int|
                0 <= k < rs.len() && ((#[trigger] rs[k]).outcome matches Outcome::DestroyedTank {
                    tank_id: t,
                } && t == id);
            assert(rs2[k] == rs[k]);
        }
    }
    if is_player {
        let c = prev.players@[idx];
        prev.players@.remove_ensures(idx);
        assert(o.players@.contains(c));
        let oc = choose|i: int| 0 <= i < o.players@.len() && o.players@[i] == c;
        // The tank was alive, so it was not yet destroyed.
        assert(!spec_tank_destroyed(rs, tid));
        assert(!spec_player_lost_life(o, rs, c.player_no));
        assert(spec_player_lost_life(o, rs2, c.player_no)) by {
            assert(0 <= oc < o.players@.len() && o.players@[oc].player_no == c.player_no
                && spec_tank_destroyed(rs2, o.players@[oc].id));
        }
        // The other player's loss is unaffected: the destroyed id belongs
        // to a tank numbered c.player_no, never to the other number.
        assert forall|no: u8| no != c.player_no implies (spec_player_lost_life(o, rs2, no)
            <==> spec_player_lost_life(o, rs, no)) by {
            if spec_player_lost_life(o, rs2, no) {
                let i = choose|i: int|
                    0 <= i < o.players@.len() && (#[trigger] o.players@[i]).player_no == no
                        && spec_tank_destroyed(rs2, o.players@[i].id);
                assert(o.players@[i].id != tid) by {
                    if o.players@[i].id == tid {
                        assert(o.players@[i] == o.players@[oc]);
                    }
                }
                assert(spec_tank_destroyed(rs, o.players@[i].id));
            }
        }
        assert forall|j: int| 0 <= j < n.players@.len() implies o.players@.contains(
            #[trigger] n.players@[j],
        ) by {
            if j < idx {
                assert(n.players@[j] == prev.players@[j]);
            } else {
                assert(n.players@[j] == prev.players@[j + 1]);
            }
        }
        assert forall|i: int| 0 <= i < o.players@.len() implies (n.players@.contains(
            #[trigger] o.players@[i],
        ) <==> !spec_tank_destroyed(rs2, o.players@[i].id)) by {
            let x = o.players@[i];
            if x.id == tid {
                assert forall|j: int| 0 <= j < n.players@.len() implies n.players@[j] != x by {
                    let pj = if j < idx {
                        j
                    } else {
                        j + 1
                    };
                    assert(n.players@[j] == prev.players@[pj]);
                    assert(prev.players@[pj].id != prev.players@[idx].id);
                }
                assert(!n.players@.contains(x));
            } else {
                if prev.players@.contains(x) {
                    let pj = choose|j: int| 0 <= j < prev.players@.len() && prev.players@[j] == x;
                    assert(pj != idx);
                    if pj < idx {
                        assert(n.players@[pj] == x);
                    } else {
                        assert(n.players@[pj - 1] == x);
                    }
                } else {
                    assert forall|j: int| 0 <= j < n.players@.len() implies n.players@[j] != x by {
                        let pj = if j < idx {
                            j
                        } else {
                            j + 1
                        };
                        assert(n.players@[j] == prev.players@[pj]);
                        assert(prev.players@.contains(prev.players@[pj]));
                    }
                }
            }
        }
        assert forall|i: int| 0 <= i < o.enemies@.len() implies (n.enemies@.contains(
            #[trigger] o.enemies@[i],
        ) <==> !spec_tank_destroyed(rs2, o.enemies@[i].id)) by {
            let x = o.enemies@[i];
            // An enemy id never equals the destroyed player id.
            assert(x.id != tid) by {
                if x.id == tid {
                    assert(o.players@[oc].id == x.id);
                }
            }
        }
        // Lives bookkeeping.
        if c.player_no == 1 {
            assert(spec_player_lost_life(o, rs2, 1));
            assert(!spec_player_lost_life(o, rs, 1));
            assert(spec_player_lost_life(o, rs2, 2) <==> spec_player_lost_life(o, rs, 2));
        } else {
            assert(spec_player_lost_life(o, rs2, 2));
            assert(!spec_player_lost_life(o, rs, 2));
            assert(spec_player_lost_life(o, rs2, 1) <==> spec_player_lost_life(o, rs, 1));
        }
    } else {
        let c = prev.enemies@[idx];
        prev.enemies@.remove_ensures(idx);
        assert(o.enemies@.contains(c));
        let oc = choose|i: int| 0 <= i < o.enemies@.len() && o.enemies@[i] == c;
        assert(!spec_tank_destroyed(rs, tid));
        assert forall|j: int| 0 <= j < n.enemies@.len() implies o.enemies@.contains(
            #[trigger] n.enemies@[j],
        ) by {
            if j < idx {
                assert(n.enemies@[j] == prev.enemies@[j]);
            } else {
                assert(n.enemies@[j] == prev.enemies@[j + 1]);
            }
        }
        assert forall|i: int| 0 <= i < o.enemies@.len() implies (n.enemies@.contains(
            #[trigger] o.enemies@[i],
        ) <==> !spec_tank_destroyed(rs2, o.enemies@[i].id)) by {
            let x = o.enemies@[i];
            if x.id == tid {
                assert forall|j: int| 0 <= j < n.enemies@.len() implies n.enemies@[j] != x by {
                    let pj = if j < idx {
                        j
                    } else {
                        j + 1
                    };
                    assert(n.enemies@[j] == prev.enemies@[pj]);
                    assert(prev.enemies@[pj].id != prev.enemies@[idx].id);
                }
                assert(!n.enemies@.contains(x));
            } else {
                if prev.enemies@.contains(x) {
                    let pj = choose|j: int| 0 <= j < prev.enemies@.len() && prev.enemies@[j] == x;
                    assert(pj != idx);
                    if pj < idx {
                        assert(n.enemies@[pj] == x);
                    } else {
                        assert(n.enemies@[pj - 1] == x);
                    }
                } else {
                    assert forall|j: int| 0 <= j < n.enemies@.len() implies n.enemies@[j] != x by {
                        let pj = if j < idx {
                            j
                        } else {
                            j + 1
                        };
                        assert(n.enemies@[j] == prev.enemies@[pj]);
                        assert(prev.enemies@.contains(prev.enemies@[pj]));
                    }
                }
            }
        }
        assert forall|i: int| 0 <= i < o.players@.len() implies (n.players@.contains(
            #[trigger] o.players@[i],
        ) <==> !spec_tank_destroyed(rs2, o.players@[i].id)) by {
            let x = o.players@[i];
            assert(x.id != tid) by {
                if x.id == tid {
                    assert(o.enemies@[oc].id == x.id);
                }
            }
        }
        // No player life moves: the destroyed id is an enemy id.
        assert forall|no: u8| spec_player_lost_life(o, rs2, no) <==> spec_player_lost_life(
            o,
            rs,
            no,
        ) by {
            if spec_player_lost_life(o, rs2, no) {
                let i = choose|i: int|
                    0 <= i < o.players@.len() && (#[trigger] o.players@[i]).player_no == no
                        && spec_tank_destroyed(rs2, o.players@[i].id);
                assert(o.players@[i].id != tid) by {
                    if o.players@[i].id == tid {
                        assert(o.enemies@[oc].id == o.players@[i].id);
                    }
                }
                assert(spec_tank_destroyed(rs, o.players@[i].id));
            }
            if spec_player_lost_life(o, rs, no) {
                let i = choose|i: int|
                    0 <= i < o.players@.len() && (#[trigger] o.players@[i]).player_no == no
                        && spec_tank_destroyed(rs, o.players@[i].id);
                assert(spec_tank_destroyed(rs2, o.players@[i].id));
            }
        }
    }
}

/// A bullet's id never names a tile, a tank or the edge sensor, at the
/// start of a pass or later: ids are unique across entity kinds.
proof fn lemma_bullet_id_is_no_target(o: GameSession, n: GameSession, rs: Seq<Resolution>, bid: u64)
    requires
        o.wf(),
        spec_resolve_post(o, n, rs),
        spec_has_bullet(o, bid),
    ensures
        !spec_has_tile(n, bid),
        !spec_has_tank(n, bid),
        bid != n.edge_id,
{
    let obi = spec_bullet_idx(o, bid);
    assert(0 <= obi < o.bullets@.len() && o.bullets@[obi].id == bid);
    if spec_has_tile(n, bid) {
        let tj = choose|i: int| 0 <= i < n.tiles@.len() && n.tiles@[i].id == bid;
        assert(o.tiles@.contains(n.tiles@[tj]));
        let ti = choose|i: int| 0 <= i < o.tiles@.len() && o.tiles@[i] == n.tiles@[tj];
        assert(o.tiles@[ti].id != o.bullets@[obi].id);
    }
    if exists|i: int| 0 <= i < n.players@.len() && n.players@[i].id == bid {
        let pj = choose|i: int| 0 <= i < n.players@.len() && n.players@[i].id == bid;
        assert(o.players@.contains(n.players@[pj]));
        let pi = choose|i: int| 0 <= i < o.players@.len() && o.players@[i] == n.players@[pj];
        assert(o.players@[pi].id != o.bullets@[obi].id);
    }
    if exists|i: int| 0 <= i < n.enemies@.len() && n.enemies@[i].id == bid {
        let ej = choose|i: int| 0 <= i < n.enemies@.len() && n.enemies@[i].id == bid;
        assert(o.enemies@.contains(n.enemies@[ej]));
        let ei = choose|i: int| 0 <= i < o.enemies@.len() && o.enemies@[i] == n.enemies@[ej];
        assert(o.enemies@[ei].id != o.bullets@[obi].id);
    }
}

/// A tile that does not stop bullets (water, or any tile whose id is
/// checked against) never completes a rule as the target.
proof fn lemma_passive_tile_no_match(s: GameSession, bid: u64, ti: int)
    requires
        s.wf(),
        0 <= ti < s.tiles@.len(),
        !s.tiles@[ti].kind.spec_stops_bullets(),
    ensures
        !spec_rule_matches(s, bid, s.tiles@[ti].id),
{
    let oid = s.tiles@[ti].id;
    if spec_rule_matches(s, bid, oid) {
        if spec_has_tile(s, oid) && s.tiles@[spec_tile_idx(s, oid)].kind.spec_stops_bullets() {
            let tj = spec_tile_idx(s, oid);
            assert(0 <= tj < s.tiles@.len() && s.tiles@[tj].id == oid);
            if tj != ti {
                assert(s.tiles@[tj].id != s.tiles@[ti].id);
            }
        } else if oid == s.edge_id {
            assert(s.tiles@[ti].id != s.edge_id);
        } else {
            if exists|i: int| 0 <= i < s.players@.len() && s.players@[i].id == oid {
                let q = choose|i: int| 0 <= i < s.players@.len() && s.players@[i].id == oid;
                assert(s.tiles@[ti].id != s.players@[q].id);
            } else {
                let q = choose|i: int| 0 <= i < s.enemies@.len() && s.enemies@[i].id == oid;
                assert(s.tiles@[ti].id != s.enemies@[q].id);
            }
        }
    }
}

/// A tank of the bullet's own faction never completes a rule as the
/// target: friendly fire matches nothing.
proof fn lemma_friendly_tank_no_match(s: GameSession, bi: int, is_player: bool, ci: int)
    requires
        s.wf(),
        0 <= bi < s.bullets@.len(),
        is_player ==> 0 <= ci < s.players@.len() && s.players@[ci].faction == s.bullets@[
            bi
        ].owner,
        !is_player ==> 0 <= ci < s.enemies@.len() && s.enemies@[ci].faction == s.bullets@[
            bi
        ].owner,
    ensures
        is_player ==> !spec_rule_matches(s, s.bullets@[bi].id, s.players@[ci].id),
        !is_player ==> !spec_rule_matches(s, s.bullets@[bi].id, s.enemies@[ci].id),
{
    let bid = s.bullets@[bi].id;
    assert(s.bullets@[spec_bullet_idx(s, bid)] == s.bullets@[bi]) by {
        let bj = spec_bullet_idx(s, bid);
        assert(0 <= bj < s.bullets@.len() && s.bullets@[bj].id == bid);
        if bj != bi {
            assert(s.bullets@[bj].id != s.bullets@[bi].id);
        }
    }
    if is_player {
        let oid = s.players@[ci].id;
        if spec_rule_matches(s, bid, oid) {
            if spec_has_tile(s, oid) && s.tiles@[spec_tile_idx(s, oid)].kind.spec_stops_bullets() {
                let tj = spec_tile_idx(s, oid);
                assert(s.tiles@[tj].id != s.players@[ci].id);
            } else if oid == s.edge_id {
                assert(s.players@[ci].id != s.edge_id);
            } else {
                assert(spec_tank(s, oid) == s.players@[ci]) by {
                    assert(exists|i: int| 0 <= i < s.players@.len() && s.players@[i].id == oid);
                    let q = choose|i: int| 0 <= i < s.players@.len() && s.players@[i].id == oid;
                    if q != ci {
                        assert(s.players@[q].id != s.players@[ci].id);
                    }
                }
            }
        }
    } else {
        let oid = s.enemies@[ci].id;
        if spec_rule_matches(s, bid, oid) {
            if spec_has_tile(s, oid) && s.tiles@[spec_tile_idx(s, oid)].kind.spec_stops_bullets() {
                let tj = spec_tile_idx(s, oid);
                assert(s.tiles@[tj].id != s.enemies@[ci].id);
            } else if oid == s.edge_id {
                assert(s.enemies@[ci].id != s.edge_id);
            } else {
                assert(!(exists|i: int| 0 <= i < s.players@.len() && s.players@[i].id == oid))
                    by {
                    if exists|i: int| 0 <= i < s.players@.len() && s.players@[i].id == oid {
                        let q = choose|i: int|
                            0 <= i < s.players@.len() && s.players@[i].id == oid;
                        assert(s.players@[q].id != s.enemies@[ci].id);
                    }
                }
                assert(spec_tank(s, oid) == s.enemies@[ci]) by {
                    let q = choose|i: int| 0 <= i < s.enemies@.len() && s.enemies@[i].id == oid;
                    if q != ci {
                        assert(s.enemies@[q].id != s.enemies@[ci].id);
                    }
                }
            }
        }
    }
}

/// After removing one bullet from a column with pairwise-distinct ids,
/// no bullet with the removed id remains.
proof fn lemma_removed_bullet_gone(pre: Seq<crate::entities::Bullet>, post: Seq<
    crate::entities::Bullet,
>, bi: int)
    requires
        forall|i: int, j: int| 0 <= i < j < pre.len() ==> pre[i].id != pre[j].id,
        0 <= bi < pre.len(),
        post == pre.remove(bi),
    ensures
        forall|j: int| 0 <= j < post.len() ==> (#[trigger] post[j]).id != pre[bi].id,
{
    pre.remove_ensures(bi);
    assert forall|j: int| 0 <= j < post.len() implies (#[trigger] post[j]).id != pre[bi].id by {
        let pj = if j < bi {
            j
        } else {
            j + 1
        };
        assert(post[j] == pre[pj]);
        assert(pre[pj].id != pre[bi].id);
    }
}

/// A bullet found alive mid-pass is one of the starting bullets,
/// unchanged, and not yet resolved.
proof fn lemma_bullet_lookup(o: GameSession, s: GameSession, rs: Seq<Resolution>, bi: int)
    requires
        o.wf(),
        spec_bullets_post(o, s, rs),
        0 <= bi < s.bullets@.len(),
    ensures
        spec_has_bullet(o, s.bullets@[bi].id),
        o.bullets@[spec_bullet_idx(o, s.bullets@[bi].id)] == s.bullets@[bi],
        !spec_resolved(rs, s.bullets@[bi].id),
{
    let b = s.bullets@[bi];
    assert(o.bullets@.contains(b));
    let oi = choose|i: int| 0 <= i < o.bullets@.len() && o.bullets@[i] == b;
    assert(spec_has_bullet(o, b.id));
    let i2 = spec_bullet_idx(o, b.id);
    assert(0 <= i2 < o.bullets@.len() && o.bullets@[i2].id == b.id);
    assert(o.bullets@[i2] == b) by {
        if i2 != oi {
            assert(o.bullets@[i2].id != o.bullets@[oi].id);
        }
    }
    assert(s.bullets@.contains(o.bullets@[oi]));
}

/// A tile found alive mid-pass is one of the starting tiles, unchanged.
proof fn lemma_tile_lookup(o: GameSession, s: GameSession, rs: Seq<Resolution>, ti: int)
    requires
        o.wf(),
        spec_tiles_post(o, s, rs),
        0 <= ti < s.tiles@.len(),
    ensures
        spec_has_tile(o, s.tiles@[ti].id),
        o.tiles@[spec_tile_idx(o, s.tiles@[ti].id)] == s.tiles@[ti],
{
    let t = s.tiles@[ti];
    assert(o.tiles@.contains(t));
    let oi = choose|i: int| 0 <= i < o.tiles@.len() && o.tiles@[i] == t;
    assert(spec_has_tile(o, t.id));
    let i2 = spec_tile_idx(o, t.id);
    assert(0 <= i2 < o.tiles@.len() && o.tiles@[i2].id == t.id);
    assert(o.tiles@[i2] == t) by {
        if i2 != oi {
            assert(o.tiles@[i2].id != o.tiles@[oi].id);
        }
    }
}

/// A player tank found alive mid-pass is one of the starting tanks,
/// unchanged.
proof fn lemma_tank_lookup_player(o: GameSession, s: GameSession, rs: Seq<Resolution>, pi: int)
    requires
        o.wf(),
        spec_tanks_post(o, s, rs),
        0 <= pi < s.players@.len(),
    ensures
        spec_has_tank(o, s.players@[pi].id),
        spec_tank(o, s.players@[pi].id) == s.players@[pi],
{
    let c = s.players@[pi];
    assert(o.players@.contains(c));
    let oi = choose|i: int| 0 <= i < o.players@.len() && o.players@[i] == c;
    assert(exists|i: int| 0 <= i < o.players@.len() && o.players@[i].id == c.id);
    let i2 = choose|i: int| 0 <= i < o.players@.len() && o.players@[i].id == c.id;
    assert(o.players@[i2] == c) by {
        if i2 != oi {
            assert(o.players@[i2].id != o.players@[oi].id);
        }
    }
}

/// An enemy tank found alive mid-pass is one of the starting tanks,
/// unchanged; its id never names a player.
proof fn lemma_tank_lookup_enemy(o: GameSession, s: GameSession, rs: Seq<Resolution>, ei: int)
    requires
        o.wf(),
        spec_tanks_post(o, s, rs),
        0 <= ei < s.enemies@.len(),
    ensures
        spec_has_tank(o, s.enemies@[ei].id),
        spec_tank(o, s.enemies@[ei].id) == s.enemies@[ei],
{
    let c = s.enemies@[ei];
    assert(o.enemies@.contains(c));
    let oi = choose|i: int| 0 <= i < o.enemies@.len() && o.enemies@[i] == c;
    assert(!(exists|i: int| 0 <= i < o.players@.len() && o.players@[i].id == c.id)) by {
        if exists|i: int| 0 <= i < o.players@.len() && o.players@[i].id == c.id {
            let i = choose|i: int| 0 <= i < o.players@.len() && o.players@[i].id == c.id;
            assert(o.players@[i].id != o.enemies@[oi].id);
        }
    }
    assert(exists|i: int| 0 <= i < o.enemies@.len() && o.enemies@[i].id == c.id);
    let i2 = choose|i: int| 0 <= i < o.enemies@.len() && o.enemies@[i].id == c.id;
    assert(o.enemies@[i2] == c) by {
        if i2 != oi {
            assert(o.enemies@[i2].id != o.enemies@[oi].id);
        }
    }
}

/// Whether the event stream names this collider id on either side.
pub open spec fn spec_touched(events: Seq<TouchEvent>, id: u64) -> bool {
    exists|k: int| 0 <= k < events.len() && ((#[trigger] events[k]).a == id || events[k].b == id)
}

/// Executable twin of [`spec_touched`].
pub fn touched(events: &Vec<TouchEvent>, id: u64) -> (r: bool)
    ensures
        r == spec_touched(events@, id),
{
    let mut k: usize = 0;
    while k < events.len()
        invariant
            k <= events@.len(),
            forall|j: int| 0 <= j < k ==> (#[trigger] events@[j]).a != id && events@[j].b != id,
        decreases events@.len() - k,
    {
        if events[k].a == id || events[k].b == id {
            return true;
        }
        k = k + 1;
    }
    false
}


/// Law: every bullet produces at most one resolution per pass — the
/// resolution list never names a bullet twice — and exactly one explosion
/// request is produced per resolution; a resolved bullet is despawned, so
/// over its whole lifetime a bullet yields exactly one despawn and at most
/// one explosion, however the touch events arrive.
pub proof fn lemma_one_resolution_per_bullet(o: GameSession, n: GameSession, rs: Seq<Resolution>)
    requires
        o.wf(),
        spec_resolve_post(o, n, rs),
    ensures
        forall|k: int, l: int| 0 <= k < l < rs.len() ==> rs[k].bullet_id != rs[l].bullet_id,
        n.effects@.len() == o.effects@.len() + rs.len(),
        forall|k: int| 0 <= k < rs.len() ==> !spec_has_bullet(n, (#[trigger] rs[k]).bullet_id),
{
    assert forall|k: int| 0 <= k < rs.len() implies !spec_has_bullet(
        n,
        (#[trigger] rs[k]).bullet_id,
    ) by {
        let id = rs[k].bullet_id;
        if spec_has_bullet(n, id) {
            let j = choose|j: int| 0 <= j < n.bullets@.len() && n.bullets@[j].id == id;
            assert(o.bullets@.contains(n.bullets@[j]));
            let i = choose|i: int| 0 <= i < o.bullets@.len() && o.bullets@[i] == n.bullets@[j];
            assert(n.bullets@.contains(o.bullets@[i]));
            assert(!spec_resolved(rs, o.bullets@[i].id));
            assert(spec_resolved(rs, id));
        }
    }
}

/// Law: a combatant with an active shield never loses a life to an enemy
/// bullet in a resolution pass — its tank survives and its lives stand —
/// though any bullet that strikes it is still consumed (as a `Deflected`
/// resolution).
pub proof fn lemma_shielded_player_survives_pass(
    o: GameSession,
    n: GameSession,
    rs: Seq<Resolution>,
    pi: int,
)
    requires
        o.wf(),
        spec_resolve_post(o, n, rs),
        0 <= pi < o.players@.len(),
        o.players@[pi].shield_ms > 0,
    ensures
        n.players@.contains(o.players@[pi]),
        o.players@[pi].player_no == 1 ==> n.lives1 == o.lives1,
        o.players@[pi].player_no == 2 ==> n.lives2 == o.lives2,
{
    let c = o.players@[pi];
    assert(!spec_tank_destroyed(rs, c.id)) by {
        if spec_tank_destroyed(rs, c.id) {
            let k = choose|k: int|
                0 <= k < rs.len() && ((#[trigger] rs[k]).outcome matches Outcome::DestroyedTank {
                    tank_id: t,
                } && t == c.id);
            assert(spec_resolution_valid(o, rs[k]));
            assert(spec_tank(o, c.id).shield_ms == 0);
            let i2 = choose|i: int| 0 <= i < o.players@.len() && o.players@[i].id == c.id;
            assert(o.players@[i2] == c) by {
                if i2 != pi {
                    assert(o.players@[i2].id != o.players@[pi].id);
                }
            }
        }
    }
    assert(!spec_player_lost_life(o, rs, c.player_no)) by {
        if spec_player_lost_life(o, rs, c.player_no) {
            let i = choose|i: int|
                0 <= i < o.players@.len() && (#[trigger] o.players@[i]).player_no == c.player_no
                    && spec_tank_destroyed(rs, o.players@[i].id);
            assert(i == pi) by {
                if i != pi {
                    assert(o.players@[i].player_no != o.players@[pi].player_no);
                }
            }
        }
    }
}

/// Law: friendly fire is never lethal — every `DestroyedTank` resolution
/// pairs a bullet with a tank of the other faction, so a Player bullet
/// never damages a Player tank and an Enemy bullet never damages an Enemy
/// tank.
pub proof fn lemma_no_friendly_fire(o: GameSession, n: GameSession, rs: Seq<Resolution>, k: int)
    requires
        o.wf(),
        spec_resolve_post(o, n, rs),
        0 <= k < rs.len(),
    ensures
        rs[k].outcome matches Outcome::DestroyedTank { tank_id } ==> spec_tank(o, tank_id).faction
            != o.bullets@[spec_bullet_idx(o, rs[k].bullet_id)].owner,
{
    assert(spec_resolution_valid(o, rs[k]));
}

impl GameSession {
    /// Drains one tick's touch events and applies the first matching rule
    /// to each: bullet against Brick destroys both, Iron absorbs the
    /// bullet, the Home raises the terminal signal, the world edge spends
    /// the bullet, and a tank takes damage through
    /// [`GameSession::apply_hit`]. Water and trees never match, and an
    /// event whose bullet already resolved earlier in the same pass is
    /// skipped, so each bullet resolves at most once however the events are
    /// ordered or duplicated.
    ///
    /// Returns the resolutions of the pass, one per consumed bullet.
    pub fn handle_bullet_collision(&mut self, events: &Vec<TouchEvent>) -> (rs: Vec<Resolution>)
        requires
            old(self).wf(),
        ensures
            final(self).wf(),
            spec_resolve_post(*old(self), *final(self), rs@),
            // The pass is complete: no event still matches a rule when it
            // ends.
            forall|j: int|
                0 <= j < events@.len() ==> !spec_event_matches(*final(self), #[trigger] events@[j]),
            // And it is grounded: every resolution answers an event of the
            // pass, pairing its bullet with the partner its outcome names.
            forall|k: int|
                0 <= k < rs@.len() ==> spec_resolution_from_events(
                    old(self).edge_id,
                    events@,
                    #[trigger] rs@[k],
                ),
    {
        let ghost o = *old(self);
        let mut rs: Vec<Resolution> = Vec::new();
        proof {
            lemma_resolve_init(o);
        }
        let mut k: usize = 0;
        while k < events.len()
            invariant
                o == *old(self),
                o.wf(),
                self.wf(),
                spec_resolve_post(o, *self, rs@),
                k <= events@.len(),
                forall|j: int| 0 <= j < k ==> !spec_event_matches(*self, #[trigger] events@[j]),
                forall|ki: int|
                    0 <= ki < rs@.len() ==> spec_resolution_from_events(
                        o.edge_id,
                        events@,
                        #[trigger] rs@[ki],
                    ),
            decreases events@.len() - k,
        {
            let ghost prev = *self;
            let ghost prev_rs = rs@;
            self.resolve_event(events[k], &mut rs, Ghost(o));
            proof {
                assert forall|j: int| 0 <= j < k + 1 implies !spec_event_matches(
                    *self,
                    #[trigger] events@[j],
                ) by {
                    if j < k {
                        lemma_no_match_preserved(o, prev, *self, prev_rs, rs@, events@[j]);
                    }
                }
                assert forall|ki: int| 0 <= ki < rs@.len() implies spec_resolution_from_events(
                    o.edge_id,
                    events@,
                    #[trigger] rs@[ki],
                ) by {
                    if ki < prev_rs.len() {
                        assert(rs@[ki] == prev_rs[ki]);
                    } else {
                        let ev = events@[k as int];
                        assert((rs@[ki].bullet_id == ev.a && spec_target_id(
                            o.edge_id,
                            rs@[ki].outcome,
                        ) == ev.b) || (rs@[ki].bullet_id == ev.b && spec_target_id(
                            o.edge_id,
                            rs@[ki].outcome,
                        ) == ev.a));
                    }
                }
            }
            k = k + 1;
        }
        rs
    }

    /// Applies the first matching resolution rule to one touch event, as
    /// [`GameSession::handle_bullet_collision`] describes, and leaves the
    /// event matching nothing: an event naming no live bullet, or matching
    /// no rule, changes nothing, and one that matched has had its bullet
    /// consumed.
    #[verifier::rlimit(100)]
    fn resolve_event(&mut self, ev: TouchEvent, rs: &mut Vec<Resolution>, Ghost(o): Ghost<
        GameSession,
    >)
        requires
            o.wf(),
            old(self).wf(),
            spec_resolve_post(o, *old(self), old(rs)@),
        ensures
            final(self).wf(),
            spec_resolve_post(o, *final(self), final(rs)@),
            !spec_event_matches(*final(self), ev),
            final(rs)@.len() >= old(rs)@.len(),
            forall|j: int| 0 <= j < old(rs)@.len() ==> final(rs)@[j] == old(rs)@[j],
            // Any resolution this event produced pairs its bullet with the
            // very partner the event named.
            forall|ki: int|
                old(rs)@.len() <= ki < final(rs)@.len() ==> (((#[trigger] final(rs)@[ki]).bullet_id
                    == ev.a && spec_target_id(o.edge_id, final(rs)@[ki].outcome) == ev.b) || (
                final(rs)@[ki].bullet_id == ev.b && spec_target_id(o.edge_id, final(rs)@[ki].outcome)
                    == ev.a)),
    {
        let bi = match self.find_bullet(ev.a) {
            Some(bi) => bi,
            None => match self.find_bullet(ev.b) {
                Some(bi) => bi,
                None => {
                    proof {
                        assert(!spec_has_bullet(*self, ev.a));
                        assert(!spec_has_bullet(*self, ev.b));
                    }
                    return ;
                },
            },
        };
        let other_id = if self.bullets[bi].id == ev.a {
            ev.b
        } else {
            ev.a
        };
        let b = self.bullets[bi];
        let ghost p0 = *self;
        proof {
            lemma_bullet_lookup(o, *self, rs@, bi as int);
        }
        if let Some(ti) = self.find_tile(other_id) {
            let stops = self.tiles[ti].kind.stops_bullets();
            self.resolve_tile_hit(bi, ti, rs, Ghost(o));
            proof {
                lemma_bullet_id_is_no_target(o, *self, rs@, b.id);
                if !stops {
                    lemma_passive_tile_no_match(p0, b.id, ti as int);
                }
                assert(!spec_event_matches(*self, ev));
            }
        } else if other_id == self.edge_id {
            self.resolve_edge_hit(bi, rs, Ghost(o));
            proof {
                lemma_bullet_id_is_no_target(o, *self, rs@, b.id);
                assert(!spec_event_matches(*self, ev));
            }
        } else if let Some(pi) = self.find_player(other_id) {
            let ghost friendly = self.players@[pi as int].faction == b.owner;
            self.resolve_player_hit(bi, pi, rs, Ghost(o));
            proof {
                lemma_bullet_id_is_no_target(o, *self, rs@, b.id);
                if friendly {
                    lemma_friendly_tank_no_match(p0, bi as int, true, pi as int);
                }
                assert(!spec_event_matches(*self, ev));
            }
        } else if let Some(ei) = self.find_enemy(other_id) {
            let ghost friendly = self.enemies@[ei as int].faction == b.owner;
            self.resolve_enemy_hit(bi, ei, rs, Ghost(o));
            proof {
                lemma_bullet_id_is_no_target(o, *self, rs@, b.id);
                if friendly {
                    lemma_friendly_tank_no_match(p0, bi as int, false, ei as int);
                }
                assert(!spec_event_matches(*self, ev));
            }
        } else {
            proof {
                lemma_bullet_id_is_no_target(o, *self, rs@, b.id);
                assert(!spec_has_tile(*self, other_id));
                assert(!spec_has_tank(*self, other_id));
                assert(!spec_event_matches(*self, ev));
            }
        }
    }

    /// Bullet against terrain: Brick is destroyed with the bullet, Iron
    /// absorbs the bullet, the Home raises the terminal signal; Water and
    /// trees let the bullet pass.
    fn resolve_tile_hit(&mut self, bi: usize, ti: usize, rs: &mut Vec<Resolution>, Ghost(o): Ghost<
        GameSession,
    >)
        requires
            o.wf(),
            old(self).wf(),
            spec_resolve_post(o, *old(self), old(rs)@),
            bi < old(self).bullets@.len(),
            ti < old(self).tiles@.len(),
        ensures
            final(self).wf(),
            spec_resolve_post(o, *final(self), final(rs)@),
            old(self).tiles@[ti as int].kind.spec_stops_bullets() ==> !spec_has_bullet(
                *final(self),
                old(self).bullets@[bi as int].id,
            ),
            !old(self).tiles@[ti as int].kind.spec_stops_bullets() ==> *final(self) == *old(self)
                && final(rs)@ == old(rs)@,
            old(self).tiles@[ti as int].kind == LevelItem::BrickWall ==> final(rs)@ == old(
                rs,
            )@.push(
                (Resolution {
                    bullet_id: old(self).bullets@[bi as int].id,
                    outcome: Outcome::HitBrick { tile_id: old(self).tiles@[ti as int].id },
                }),
            ),
            old(self).tiles@[ti as int].kind == LevelItem::IronWall ==> final(rs)@ == old(
                rs,
            )@.push(
                (Resolution {
                    bullet_id: old(self).bullets@[bi as int].id,
                    outcome: Outcome::HitIron { tile_id: old(self).tiles@[ti as int].id },
                }),
            ),
            old(self).tiles@[ti as int].kind == LevelItem::Home ==> final(rs)@ == old(rs)@.push(
                (Resolution {
                    bullet_id: old(self).bullets@[bi as int].id,
                    outcome: Outcome::HitHome { tile_id: old(self).tiles@[ti as int].id },
                }),
            ),
            final(rs)@.len() >= old(rs)@.len(),
            forall|j: int| 0 <= j < old(rs)@.len() ==> final(rs)@[j] == old(rs)@[j],
    {
        match self.tiles[ti].kind {
            LevelItem::BrickWall => {
                self.resolve_brick_hit(bi, ti, rs, Ghost(o));
            },
            LevelItem::IronWall => {
                self.resolve_iron_hit(bi, ti, rs, Ghost(o));
            },
            LevelItem::Home => {
                self.resolve_home_hit(bi, ti, rs, Ghost(o));
            },
            LevelItem::Tree => {},
            LevelItem::Water => {},
        }
    }

    /// Bullet against a Brick tile: both are destroyed, with a small
    /// explosion where the bullet stopped.
    #[verifier::rlimit(100)]
    #[verifier::spinoff_prover]
    fn resolve_brick_hit(&mut self, bi: usize, ti: usize, rs: &mut Vec<Resolution>, Ghost(
        o,
    ): Ghost<GameSession>)
        requires
            o.wf(),
            old(self).wf(),
            spec_resolve_post(o, *old(self), old(rs)@),
            bi < old(self).bullets@.len(),
            ti < old(self).tiles@.len(),
            old(self).tiles@[ti as int].kind == LevelItem::BrickWall,
        ensures
            final(self).wf(),
            spec_resolve_post(o, *final(self), final(rs)@),
            !spec_has_bullet(*final(self), old(self).bullets@[bi as int].id),
            final(rs)@ == old(rs)@.push(
                (Resolution {
                    bullet_id: old(self).bullets@[bi as int].id,
                    outcome: Outcome::HitBrick { tile_id: old(self).tiles@[ti as int].id },
                }),
            ),
    {
        let ghost rs0 = rs@;
        let b = self.bullets[bi];
        let t = self.tiles[ti];
        proof {
            lemma_bullet_lookup(o, *self, rs0, bi as int);
            lemma_tile_lookup(o, *self, rs0, ti as int);
        }
        let r = Resolution { bullet_id: b.id, outcome: Outcome::HitBrick { tile_id: t.id } };
        let ghost prev = *self;
        self.destroy(t.id);
        let ghost mid = *self;
        proof {
            assert(prev.tiles@[ti as int].id == t.id);
            assert(mid.tiles@ == prev.tiles@.remove(ti as int));
            assert(mid.bullets@[bi as int].id == b.id);
        }
        self.despawn(b.id);
        let ghost after_d = *self;
        let e = ExplosionEvent { pos: b.pos, explosion_type: ExplosionType::BulletExplosion };
        self.effects.push(e);
        rs.push(r);
        proof {
            assert(after_d.bullets@ == mid.bullets@.remove(bi as int));
            lemma_removed_bullet_gone(mid.bullets@, after_d.bullets@, bi as int);
            assert(!spec_has_bullet(*self, b.id));
            assert(self.effects@ == after_d.effects@.push(e));
            assert(spec_explosion_for(o, r) == e);
            lemma_bullets_step(o, mid, *self, rs0, r, bi as int);
            lemma_effects_step(o, after_d, *self, rs0, r);
            lemma_tiles_step(o, prev, *self, rs0, r, ti as int);
            lemma_tanks_keep(o, prev, *self, rs0, r);
            lemma_home_keep(o, prev, *self, rs0, r);
        }
    }

    /// Bullet against an Iron tile: the tile absorbs the bullet and
    /// survives.
    #[verifier::rlimit(100)]
    #[verifier::spinoff_prover]
    fn resolve_iron_hit(&mut self, bi: usize, ti: usize, rs: &mut Vec<Resolution>, Ghost(o): Ghost<
        GameSession,
    >)
        requires
            o.wf(),
            old(self).wf(),
            spec_resolve_post(o, *old(self), old(rs)@),
            bi < old(self).bullets@.len(),
            ti < old(self).tiles@.len(),
            old(self).tiles@[ti as int].kind == LevelItem::IronWall,
        ensures
            final(self).wf(),
            spec_resolve_post(o, *final(self), final(rs)@),
            !spec_has_bullet(*final(self), old(self).bullets@[bi as int].id),
            final(rs)@ == old(rs)@.push(
                (Resolution {
                    bullet_id: old(self).bullets@[bi as int].id,
                    outcome: Outcome::HitIron { tile_id: old(self).tiles@[ti as int].id },
                }),
            ),
    {
        let ghost rs0 = rs@;
        let b = self.bullets[bi];
        let t = self.tiles[ti];
        proof {
            lemma_bullet_lookup(o, *self, rs0, bi as int);
            lemma_tile_lookup(o, *self, rs0, ti as int);
        }
        let r = Resolution { bullet_id: b.id, outcome: Outcome::HitIron { tile_id: t.id } };
        let ghost prev = *self;
        proof {
            assert(prev.bullets@[bi as int].id == b.id);
        }
        self.despawn(b.id);
        let ghost after_d = *self;
        let e = ExplosionEvent { pos: b.pos, explosion_type: ExplosionType::BulletExplosion };
        self.effects.push(e);
        rs.push(r);
        proof {
            assert(after_d.bullets@ == prev.bullets@.remove(bi as int));
            lemma_removed_bullet_gone(prev.bullets@, after_d.bullets@, bi as int);
            assert(!spec_has_bullet(*self, b.id));
            assert(self.effects@ == after_d.effects@.push(e));
            assert(spec_explosion_for(o, r) == e);
            lemma_bullets_step(o, prev, *self, rs0, r, bi as int);
            lemma_effects_step(o, after_d, *self, rs0, r);
            lemma_tiles_keep(o, prev, *self, rs0, r);
            lemma_tanks_keep(o, prev, *self, rs0, r);
            lemma_home_keep(o, prev, *self, rs0, r);
        }
    }

    /// Bullet against the Home: the bullet is spent, a big explosion plays
    /// at the Home, and the terminal Home-destroyed signal is raised. The
    /// game ends on the state machine's next evaluation regardless of
    /// remaining lives.
    #[verifier::rlimit(100)]
    #[verifier::spinoff_prover]
    fn resolve_home_hit(&mut self, bi: usize, ti: usize, rs: &mut Vec<Resolution>, Ghost(o): Ghost<
        GameSession,
    >)
        requires
            o.wf(),
            old(self).wf(),
            spec_resolve_post(o, *old(self), old(rs)@),
            bi < old(self).bullets@.len(),
            ti < old(self).tiles@.len(),
            old(self).tiles@[ti as int].kind == LevelItem::Home,
        ensures
            final(self).wf(),
            spec_resolve_post(o, *final(self), final(rs)@),
            !spec_has_bullet(*final(self), old(self).bullets@[bi as int].id),
            final(rs)@ == old(rs)@.push(
                (Resolution {
                    bullet_id: old(self).bullets@[bi as int].id,
                    outcome: Outcome::HitHome { tile_id: old(self).tiles@[ti as int].id },
                }),
            ),
    {
        let ghost rs0 = rs@;
        let b = self.bullets[bi];
        let t = self.tiles[ti];
        proof {
            lemma_bullet_lookup(o, *self, rs0, bi as int);
            lemma_tile_lookup(o, *self, rs0, ti as int);
        }
        let r = Resolution { bullet_id: b.id, outcome: Outcome::HitHome { tile_id: t.id } };
        let ghost prev = *self;
        proof {
            assert(prev.bullets@[bi as int].id == b.id);
        }
        self.despawn(b.id);
        let ghost after_d = *self;
        let e = ExplosionEvent { pos: t.pos, explosion_type: ExplosionType::BigExplosion };
        self.effects.push(e);
        self.home_destroyed = true;
        rs.push(r);
        proof {
            assert(after_d.bullets@ == prev.bullets@.remove(bi as int));
            lemma_removed_bullet_gone(prev.bullets@, after_d.bullets@, bi as int);
            assert(!spec_has_bullet(*self, b.id));
            assert(self.effects@ == after_d.effects@.push(e));
            assert(spec_explosion_for(o, r) == e);
            lemma_bullets_step(o, prev, *self, rs0, r, bi as int);
            lemma_effects_step(o, after_d, *self, rs0, r);
            lemma_tiles_keep(o, prev, *self, rs0, r);
            lemma_tanks_keep(o, prev, *self, rs0, r);
            lemma_home_set(o, prev, *self, rs0, r);
        }
    }

    /// Bullet against the world-edge sensor: the bullet is spent with a
    /// small explosion at the clamped edge position.
    #[verifier::rlimit(100)]
    #[verifier::spinoff_prover]
    fn resolve_edge_hit(&mut self, bi: usize, rs: &mut Vec<Resolution>, Ghost(o): Ghost<
        GameSession,
    >)
        requires
            o.wf(),
            old(self).wf(),
            spec_resolve_post(o, *old(self), old(rs)@),
            bi < old(self).bullets@.len(),
        ensures
            final(self).wf(),
            spec_resolve_post(o, *final(self), final(rs)@),
            !spec_has_bullet(*final(self), old(self).bullets@[bi as int].id),
            final(rs)@ == old(rs)@.push(
                (Resolution {
                    bullet_id: old(self).bullets@[bi as int].id,
                    outcome: Outcome::HitEdge,
                }),
            ),
    {
        let ghost rs0 = rs@;
        let b = self.bullets[bi];
        proof {
            lemma_bullet_lookup(o, *self, rs0, bi as int);
        }
        let r = Resolution { bullet_id: b.id, outcome: Outcome::HitEdge };
        let ghost prev = *self;
        proof {
            assert(prev.bullets@[bi as int].id == b.id);
        }
        self.despawn(b.id);
        let ghost after_d = *self;
        let e = ExplosionEvent {
            pos: b.pos.clamped_to_arena(),
            explosion_type: ExplosionType::BulletExplosion,
        };
        self.effects.push(e);
        rs.push(r);
        proof {
            assert(after_d.bullets@ == prev.bullets@.remove(bi as int));
            lemma_removed_bullet_gone(prev.bullets@, after_d.bullets@, bi as int);
            assert(!spec_has_bullet(*self, b.id));
            assert(self.effects@ == after_d.effects@.push(e));
            assert(spec_explosion_for(o, r) == e);
            lemma_bullets_step(o, prev, *self, rs0, r, bi as int);
            lemma_effects_step(o, after_d, *self, rs0, r);
            lemma_tiles_keep(o, prev, *self, rs0, r);
            lemma_tanks_keep(o, prev, *self, rs0, r);
            lemma_home_keep(o, prev, *self, rs0, r);
        }
    }

    /// Bullet against a player tank, routed through
    /// [`GameSession::apply_hit`]: friendly fire passes through, a shield
    /// deflects with a small explosion, otherwise the tank is destroyed
    /// with a big one.
    fn resolve_player_hit(&mut self, bi: usize, pi: usize, rs: &mut Vec<Resolution>, Ghost(
        o,
    ): Ghost<GameSession>)
        requires
            o.wf(),
            old(self).wf(),
            spec_resolve_post(o, *old(self), old(rs)@),
            bi < old(self).bullets@.len(),
            pi < old(self).players@.len(),
        ensures
            final(self).wf(),
            spec_resolve_post(o, *final(self), final(rs)@),
            spec_hit_outcome(old(self).players@[pi as int], old(self).bullets@[bi as int].owner)
                != HitOutcome::Friendly ==> !spec_has_bullet(
                *final(self),
                old(self).bullets@[bi as int].id,
            ),
            spec_hit_outcome(old(self).players@[pi as int], old(self).bullets@[bi as int].owner)
                == HitOutcome::Friendly ==> *final(self) == *old(self) && final(rs)@ == old(rs)@,
            spec_hit_outcome(old(self).players@[pi as int], old(self).bullets@[bi as int].owner)
                == HitOutcome::Destroyed ==> final(rs)@ == old(rs)@.push(
                (Resolution {
                    bullet_id: old(self).bullets@[bi as int].id,
                    outcome: Outcome::DestroyedTank { tank_id: old(self).players@[pi as int].id },
                }),
            ),
            spec_hit_outcome(old(self).players@[pi as int], old(self).bullets@[bi as int].owner)
                == HitOutcome::Deflected ==> final(rs)@ == old(rs)@.push(
                (Resolution {
                    bullet_id: old(self).bullets@[bi as int].id,
                    outcome: Outcome::Deflected { tank_id: old(self).players@[pi as int].id },
                }),
            ),
            final(rs)@.len() >= old(rs)@.len(),
            forall|j: int| 0 <= j < old(rs)@.len() ==> final(rs)@[j] == old(rs)@[j],
    {
        match hit_outcome(&self.players[pi], self.bullets[bi].owner) {
            HitOutcome::Destroyed => {
                self.resolve_player_destroyed(bi, pi, rs, Ghost(o));
            },
            HitOutcome::Deflected => {
                self.resolve_player_deflected(bi, pi, rs, Ghost(o));
            },
            HitOutcome::Friendly => {},
        }
    }

    /// An unshielded player tank struck by an enemy bullet: the tank is
    /// despawned, one life is lost, the bullet is spent, a big explosion
    /// plays where the tank stood.
    #[verifier::rlimit(100)]
    #[verifier::spinoff_prover]
    fn resolve_player_destroyed(&mut self, bi: usize, pi: usize, rs: &mut Vec<Resolution>, Ghost(
        o,
    ): Ghost<GameSession>)
        requires
            o.wf(),
            old(self).wf(),
            spec_resolve_post(o, *old(self), old(rs)@),
            bi < old(self).bullets@.len(),
            pi < old(self).players@.len(),
            spec_hit_outcome(old(self).players@[pi as int], old(self).bullets@[bi as int].owner)
                == HitOutcome::Destroyed,
        ensures
            final(self).wf(),
            spec_resolve_post(o, *final(self), final(rs)@),
            !spec_has_bullet(*final(self), old(self).bullets@[bi as int].id),
            final(rs)@ == old(rs)@.push(
                (Resolution {
                    bullet_id: old(self).bullets@[bi as int].id,
                    outcome: Outcome::DestroyedTank { tank_id: old(self).players@[pi as int].id },
                }),
            ),
    {
        let ghost rs0 = rs@;
        let b = self.bullets[bi];
        let tp = self.players[pi].pos;
        let other_id = self.players[pi].id;
        let ghost c = self.players@[pi as int];
        proof {
            lemma_bullet_lookup(o, *self, rs0, bi as int);
            lemma_tank_lookup_player(o, *self, rs0, pi as int);
        }
        let ghost prev = *self;
        let outcome = self.apply_hit(other_id, b.owner);
        proof {
            assert(prev.players@[pi as int].id == other_id);
            assert(outcome == Some(HitOutcome::Destroyed));
        }
        let r = Resolution { bullet_id: b.id, outcome: Outcome::DestroyedTank { tank_id: other_id } };
        let ghost mid = *self;
        proof {
            assert(mid.players@ == prev.players@.remove(pi as int));
            assert(mid.bullets@[bi as int].id == b.id);
            assert(1 <= c.player_no <= 2);
        }
        self.despawn(b.id);
        let ghost after_d = *self;
        let e = ExplosionEvent { pos: tp, explosion_type: ExplosionType::BigExplosion };
        self.effects.push(e);
        rs.push(r);
        proof {
            assert(after_d.bullets@ == mid.bullets@.remove(bi as int));
            lemma_removed_bullet_gone(mid.bullets@, after_d.bullets@, bi as int);
            assert(!spec_has_bullet(*self, b.id));
            assert(self.effects@ == after_d.effects@.push(e));
            assert(spec_explosion_for(o, r) == e);
            lemma_bullets_step(o, mid, *self, rs0, r, bi as int);
            lemma_effects_step(o, after_d, *self, rs0, r);
            lemma_tiles_keep(o, prev, *self, rs0, r);
            lemma_tanks_destroy(o, prev, *self, rs0, r, other_id, true, pi as int);
            lemma_home_keep(o, prev, *self, rs0, r);
        }
    }

    /// A shielded player tank struck by an enemy bullet: the bullet is
    /// consumed and a small explosion plays, but the tank survives and no
    /// life is lost.
    #[verifier::rlimit(100)]
    #[verifier::spinoff_prover]
    fn resolve_player_deflected(&mut self, bi: usize, pi: usize, rs: &mut Vec<Resolution>, Ghost(
        o,
    ): Ghost<GameSession>)
        requires
            o.wf(),
            old(self).wf(),
            spec_resolve_post(o, *old(self), old(rs)@),
            bi < old(self).bullets@.len(),
            pi < old(self).players@.len(),
            spec_hit_outcome(old(self).players@[pi as int], old(self).bullets@[bi as int].owner)
                == HitOutcome::Deflected,
        ensures
            final(self).wf(),
            spec_resolve_post(o, *final(self), final(rs)@),
            !spec_has_bullet(*final(self), old(self).bullets@[bi as int].id),
            final(rs)@ == old(rs)@.push(
                (Resolution {
                    bullet_id: old(self).bullets@[bi as int].id,
                    outcome: Outcome::Deflected { tank_id: old(self).players@[pi as int].id },
                }),
            ),
    {
        let ghost rs0 = rs@;
        let b = self.bullets[bi];
        let tp = self.players[pi].pos;
        let other_id = self.players[pi].id;
        proof {
            lemma_bullet_lookup(o, *self, rs0, bi as int);
            lemma_tank_lookup_player(o, *self, rs0, pi as int);
        }
        let ghost prev = *self;
        let outcome = self.apply_hit(other_id, b.owner);
        proof {
            assert(prev.players@[pi as int].id == other_id);
            assert(outcome == Some(HitOutcome::Deflected));
            assert(self.bullets@[bi as int].id == b.id);
        }
        let r = Resolution { bullet_id: b.id, outcome: Outcome::Deflected { tank_id: other_id } };
        let ghost mid = *self;
        self.despawn(b.id);
        let ghost after_d = *self;
        let e = ExplosionEvent { pos: tp, explosion_type: ExplosionType::BulletExplosion };
        self.effects.push(e);
        rs.push(r);
        proof {
            assert(after_d.bullets@ == mid.bullets@.remove(bi as int));
            lemma_removed_bullet_gone(mid.bullets@, after_d.bullets@, bi as int);
            assert(!spec_has_bullet(*self, b.id));
            assert(self.effects@ == after_d.effects@.push(e));
            assert(spec_explosion_for(o, r) == e);
            lemma_bullets_step(o, mid, *self, rs0, r, bi as int);
            lemma_effects_step(o, after_d, *self, rs0, r);
            lemma_tiles_keep(o, prev, *self, rs0, r);
            lemma_tanks_keep(o, prev, *self, rs0, r);
            lemma_home_keep(o, prev, *self, rs0, r);
        }
    }

    /// Bullet against an enemy tank, routed through
    /// [`GameSession::apply_hit`]: an enemy's own faction's bullet passes
    /// through, any other destroys it (enemies carry no shield).
    #[verifier::rlimit(100)]
    #[verifier::spinoff_prover]
    fn resolve_enemy_hit(&mut self, bi: usize, ei: usize, rs: &mut Vec<Resolution>, Ghost(
        o,
    ): Ghost<GameSession>)
        requires
            o.wf(),
            old(self).wf(),
            spec_resolve_post(o, *old(self), old(rs)@),
            bi < old(self).bullets@.len(),
            ei < old(self).enemies@.len(),
        ensures
            final(self).wf(),
            spec_resolve_post(o, *final(self), final(rs)@),
            spec_hit_outcome(old(self).enemies@[ei as int], old(self).bullets@[bi as int].owner)
                == HitOutcome::Destroyed ==> !spec_has_bullet(
                *final(self),
                old(self).bullets@[bi as int].id,
            ),
            spec_hit_outcome(old(self).enemies@[ei as int], old(self).bullets@[bi as int].owner)
                != HitOutcome::Destroyed ==> *final(self) == *old(self) && final(rs)@ == old(rs)@,
            spec_hit_outcome(old(self).enemies@[ei as int], old(self).bullets@[bi as int].owner)
                == HitOutcome::Destroyed ==> final(rs)@ == old(rs)@.push(
                (Resolution {
                    bullet_id: old(self).bullets@[bi as int].id,
                    outcome: Outcome::DestroyedTank { tank_id: old(self).enemies@[ei as int].id },
                }),
            ),
            final(rs)@.len() >= old(rs)@.len(),
            forall|j: int| 0 <= j < old(rs)@.len() ==> final(rs)@[j] == old(rs)@[j],
    {
        let ghost rs0 = rs@;
        let b = self.bullets[bi];
        let tp = self.enemies[ei].pos;
        let other_id = self.enemies[ei].id;
        proof {
            lemma_bullet_lookup(o, *self, rs0, bi as int);
            lemma_tank_lookup_enemy(o, *self, rs0, ei as int);
        }
        let ghost prev = *self;
        match self.apply_hit(other_id, b.owner) {
            Some(HitOutcome::Destroyed) => {
                let r = Resolution {
                    bullet_id: b.id,
                    outcome: Outcome::DestroyedTank { tank_id: other_id },
                };
                let ghost mid = *self;
                proof {
                    assert(prev.enemies@[ei as int].id == other_id);
                    assert(mid.enemies@ == prev.enemies@.remove(ei as int));
                    assert(mid.bullets@[bi as int].id == b.id);
                }
                self.despawn(b.id);
                let ghost after_d = *self;
                let e = ExplosionEvent { pos: tp, explosion_type: ExplosionType::BigExplosion };
                self.effects.push(e);
                rs.push(r);
                proof {
                    assert(after_d.bullets@ == mid.bullets@.remove(bi as int));
            lemma_removed_bullet_gone(mid.bullets@, after_d.bullets@, bi as int);
            assert(!spec_has_bullet(*self, b.id));
                    assert(self.effects@ == after_d.effects@.push(e));
                    assert(spec_explosion_for(o, r) == e);
                    lemma_bullets_step(o, mid, *self, rs0, r, bi as int);
                    lemma_effects_step(o, after_d, *self, rs0, r);
                    lemma_tiles_keep(o, prev, *self, rs0, r);
                    lemma_tanks_destroy(o, prev, *self, rs0, r, other_id, false, ei as int);
                    lemma_home_keep(o, prev, *self, rs0, r);
                }
            },
            _ => {
                proof {
                    assert(prev.enemies@[ei as int].id == other_id);
                    assert(*self == prev);
                }
            },
        }
    }

    /// Resets the direction-change timer of every enemy named by a touch
    /// event this tick, forcing an immediate direction re-evaluation: this
    /// is how enemies bounce off obstacles without pathfinding.
    #[verifier::rlimit(100)]
    #[verifier::spinoff_prover]
    pub fn handle_enemy_collision(&mut self, events: &Vec<TouchEvent>)
        requires
            old(self).wf(),
        ensures
            final(self).wf(),
            final(self).enemies@.len() == old(self).enemies@.len(),
            forall|i: int|
                #![trigger final(self).enemies@[i]]
                0 <= i < old(self).enemies@.len() ==> {
                    let c = old(self).enemies@[i];
                    final(self).enemies@[i] == (Combatant {
                        turn_timer_ms: if spec_touched(events@, c.id) {
                            0
                        } else {
                            c.turn_timer_ms
                        },
                        ..c
                    })
                },
            *final(self) == (GameSession { enemies: final(self).enemies, ..*old(self) }),
    {
        let mut i: usize = 0;
        while i < self.enemies.len()
            invariant
                old(self).wf(),
                self.wf(),
                i <= self.enemies@.len(),
                self.enemies@.len() == old(self).enemies@.len(),
                forall|j: int| i <= j < self.enemies@.len()
                    ==> self.enemies@[j] == old(self).enemies@[j],
                forall|j: int|
                    #![trigger self.enemies@[j]]
                    0 <= j < i ==> {
                        let c = old(self).enemies@[j];
                        self.enemies@[j] == (Combatant {
                            turn_timer_ms: if spec_touched(events@, c.id) {
                                0
                            } else {
                                c.turn_timer_ms
                            },
                            ..c
                        })
                    },
                *self == (GameSession { enemies: self.enemies, ..*old(self) }),
            decreases self.enemies@.len() - i,
        {
            let c = self.enemies[i];
            if touched(events, c.id) {
                self.enemies[i] = Combatant { turn_timer_ms: 0, ..c };
            }
            i = i + 1;
        }
    }
}

} // verus!
