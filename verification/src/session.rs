//! The game session: the single owner of all gameplay state, passed by
//! reference to each per-tick system call.

use vstd::prelude::*;
use crate::entities::{
    Bullet, Combatant, Explosion, ExplosionEvent, Faction, PendingSpawn, ENEMIES_PER_LEVEL,
    INITIAL_LIVES, MAX_LIVE_ENEMIES,
};
use crate::levels::LevelGeometry;
use crate::state::{AppState, MultiplayerMode};
use crate::terrain::Tile;

verus! {

/// Timer countdown, stopping at zero.
pub open spec fn spec_tick_down(t: u32, dt: u32) -> u32 {
    if t > dt {
        (t - dt) as u32
    } else {
        0
    }
}

/// Executable twin of [`spec_tick_down`].
pub fn tick_down(t: u32, dt: u32) -> (r: u32)
    ensures
        r == spec_tick_down(t, dt),
{
    if t > dt {
        t - dt
    } else {
        0
    }
}

/// All state of one run of the game, from the start menu through the levels
/// and back. Cross-component mutation goes only through the methods of this
/// type, never by direct field access from a collaborator.
pub struct GameSession {
    pub state: AppState,
    pub mode: MultiplayerMode,
    /// Geometry of every level, supplied once by the level collaborator.
    pub levels: Vec<LevelGeometry>,
    /// Index of the level currently played (or about to be played).
    pub level_index: usize,
    /// Enemies spawned so far in the current level; never exceeds
    /// [`ENEMIES_PER_LEVEL`].
    pub spawned_enemies: u32,
    /// Live terrain tiles of the current level.
    pub tiles: Vec<Tile>,
    /// Live player tanks.
    pub players: Vec<Combatant>,
    /// Live enemy tanks; never more than [`MAX_LIVE_ENEMIES`].
    pub enemies: Vec<Combatant>,
    /// Bullets in flight.
    pub bullets: Vec<Bullet>,
    /// Player spawns whose birth effect is still playing.
    pub pending_spawns: Vec<PendingSpawn>,
    /// Effect requests produced this tick, drained by the rendering
    /// collaborator.
    pub effects: Vec<ExplosionEvent>,
    /// Timed explosion entities whose lifetime the core owns.
    pub explosions: Vec<Explosion>,
    /// Lives left for player one. A live or announcing player always has at
    /// least one life left.
    pub lives1: u8,
    /// Lives left for player two.
    pub lives2: u8,
    /// Set when a bullet reaches the Home; the state machine turns it into
    /// a game over on its next evaluation.
    pub home_destroyed: bool,
    /// Milliseconds of game-over effect left before the menu returns.
    pub game_over_ms: u32,
    /// Source of fresh collider ids: every id in use is below it.
    pub next_id: u64,
    /// Reserved id of the synthetic world-edge sensor around the arena.
    pub edge_id: u64,
}

impl GameSession {
    /// Collider ids are unique across tiles, players, enemies, bullets and
    /// the world-edge sensor, and all lie below `next_id`.
    pub open spec fn ids_wf(self) -> bool {
        &&& forall|i: int, j: int|
            0 <= i < j < self.tiles@.len() ==> self.tiles@[i].id != self.tiles@[j].id
        &&& forall|i: int, j: int|
            0 <= i < j < self.players@.len() ==> self.players@[i].id != self.players@[j].id
        &&& forall|i: int, j: int|
            0 <= i < j < self.enemies@.len() ==> self.enemies@[i].id != self.enemies@[j].id
        &&& forall|i: int, j: int|
            0 <= i < j < self.bullets@.len() ==> self.bullets@[i].id != self.bullets@[j].id
        &&& forall|i: int, j: int|
            0 <= i < self.tiles@.len() && 0 <= j < self.players@.len()
                ==> self.tiles@[i].id != self.players@[j].id
        &&& forall|i: int, j: int|
            0 <= i < self.tiles@.len() && 0 <= j < self.enemies@.len()
                ==> self.tiles@[i].id != self.enemies@[j].id
        &&& forall|i: int, j: int|
            0 <= i < self.tiles@.len() && 0 <= j < self.bullets@.len()
                ==> self.tiles@[i].id != self.bullets@[j].id
        &&& forall|i: int, j: int|
            0 <= i < self.players@.len() && 0 <= j < self.enemies@.len()
                ==> self.players@[i].id != self.enemies@[j].id
        &&& forall|i: int, j: int|
            0 <= i < self.players@.len() && 0 <= j < self.bullets@.len()
                ==> self.players@[i].id != self.bullets@[j].id
        &&& forall|i: int, j: int|
            0 <= i < self.enemies@.len() && 0 <= j < self.bullets@.len()
                ==> self.enemies@[i].id != self.bullets@[j].id
        &&& forall|i: int|
            0 <= i < self.tiles@.len()
                ==> self.tiles@[i].id != self.edge_id && self.tiles@[i].id < self.next_id
        &&& forall|i: int|
            0 <= i < self.players@.len()
                ==> self.players@[i].id != self.edge_id && self.players@[i].id < self.next_id
        &&& forall|i: int|
            0 <= i < self.enemies@.len()
                ==> self.enemies@[i].id != self.edge_id && self.enemies@[i].id < self.next_id
        &&& forall|i: int|
            0 <= i < self.bullets@.len()
                ==> self.bullets@[i].id != self.edge_id && self.bullets@[i].id < self.next_id
        &&& self.edge_id < self.next_id
    }

    /// A tank never moves diagonally: at most one velocity axis is non-zero.
    pub open spec fn axis_vel(c: Combatant) -> bool {
        c.vel_x == 0 || c.vel_y == 0
    }

    /// Every entry of `players` is a well-formed player tank, and no player
    /// number appears twice.
    pub open spec fn players_wf(self) -> bool {
        &&& forall|i: int|
            0 <= i < self.players@.len()
                ==> (#[trigger] self.players@[i]).faction == Faction::Player
                    && 1 <= self.players@[i].player_no <= 2
                    && Self::axis_vel(self.players@[i])
        &&& forall|i: int, j: int|
            0 <= i < j < self.players@.len()
                ==> self.players@[i].player_no != self.players@[j].player_no
    }

    /// Every entry of `enemies` is a well-formed enemy tank. Enemies spawn
    /// live, with no invulnerability window, and never gain one.
    pub open spec fn enemies_wf(self) -> bool {
        forall|i: int|
            0 <= i < self.enemies@.len()
                ==> (#[trigger] self.enemies@[i]).faction == Faction::Enemy
                    && self.enemies@[i].player_no == 0 && self.enemies@[i].shield_ms == 0
                    && Self::axis_vel(self.enemies@[i])
    }

    /// Whether a live player tank with this number exists.
    pub open spec fn spec_has_player(self, no: u8) -> bool {
        exists|i: int| 0 <= i < self.players@.len() && self.players@[i].player_no == no
    }

    /// Whether a pending (announcing) spawn for this player number exists.
    pub open spec fn spec_has_pending(self, no: u8) -> bool {
        exists|i: int|
            0 <= i < self.pending_spawns@.len() && self.pending_spawns@[i].player_no == no
    }

    /// Pending spawns carry a valid player number, no number is announced
    /// twice, and a tank never coexists with its own announcement: the
    /// two-phase spawn converts exactly once.
    pub open spec fn pending_wf(self) -> bool {
        &&& forall|i: int|
            0 <= i < self.pending_spawns@.len()
                ==> 1 <= (#[trigger] self.pending_spawns@[i]).player_no <= 2
                    && !self.spec_has_player(self.pending_spawns@[i].player_no)
        &&& forall|i: int, j: int|
            0 <= i < j < self.pending_spawns@.len()
                ==> self.pending_spawns@[i].player_no != self.pending_spawns@[j].player_no
    }

    /// Lives left for the given player number (1 or 2).
    pub open spec fn spec_lives(self, no: u8) -> u8 {
        if no == 1 {
            self.lives1
        } else {
            self.lives2
        }
    }

    /// A player that is alive or being born always has a life left: spawns
    /// are gated on `lives > 0` and a hit costs at most one life.
    pub open spec fn lives_wf(self) -> bool {
        &&& self.spec_has_player(1) || self.spec_has_pending(1) ==> self.lives1 >= 1
        &&& self.spec_has_player(2) || self.spec_has_pending(2) ==> self.lives2 >= 1
    }

    /// Population and progression bounds: the live-enemy cap, the per-level
    /// spawn quota, and a level index that names a real level.
    pub open spec fn counts_wf(self) -> bool {
        &&& self.enemies@.len() <= MAX_LIVE_ENEMIES
        &&& self.spawned_enemies <= ENEMIES_PER_LEVEL
        &&& self.level_index < self.levels@.len()
    }

    /// On the start menu the battlefield is empty, and in single-player
    /// mode player two never appears.
    pub open spec fn menu_wf(self) -> bool {
        &&& self.state == AppState::StartMenu
            ==> self.players@.len() == 0 && self.enemies@.len() == 0 && self.bullets@.len() == 0
                && self.pending_spawns@.len() == 0
        &&& self.mode == MultiplayerMode::SinglePlayer
            ==> !self.spec_has_player(2) && !self.spec_has_pending(2)
    }

    /// The session invariant: every public operation preserves it.
    pub open spec fn wf(self) -> bool {
        &&& self.ids_wf()
        &&& self.players_wf()
        &&& self.enemies_wf()
        &&& self.pending_wf()
        &&& self.lives_wf()
        &&& self.counts_wf()
        &&& self.menu_wf()
    }

    /// A fresh session on the start menu, holding the given level geometry.
    /// Play begins when the state machine receives the start input.
    pub fn new(levels: Vec<LevelGeometry>, mode: MultiplayerMode) -> (r: GameSession)
        requires
            levels@.len() > 0,
        ensures
            r.wf(),
            r.state == AppState::StartMenu,
            r.mode == mode,
            r.levels == levels,
            r.level_index == 0,
            r.spawned_enemies == 0,
            r.tiles@.len() == 0,
            r.players@.len() == 0,
            r.enemies@.len() == 0,
            r.bullets@.len() == 0,
            r.pending_spawns@.len() == 0,
            r.effects@.len() == 0,
            r.explosions@.len() == 0,
            r.lives1 == INITIAL_LIVES,
            r.lives2 == INITIAL_LIVES,
            !r.home_destroyed,
            r.game_over_ms == 0,
            r.next_id == 1,
            r.edge_id == 0,
    {
        GameSession {
            state: AppState::StartMenu,
            mode,
            levels,
            level_index: 0,
            spawned_enemies: 0,
            tiles: Vec::new(),
            players: Vec::new(),
            enemies: Vec::new(),
            bullets: Vec::new(),
            pending_spawns: Vec::new(),
            effects: Vec::new(),
            explosions: Vec::new(),
            lives1: INITIAL_LIVES,
            lives2: INITIAL_LIVES,
            home_destroyed: false,
            game_over_ms: 0,
            next_id: 1,
            edge_id: 0,
        }
    }

    /// Index of the tile with this collider id, if any.
    pub fn find_tile(&self, id: u64) -> (r: Option<usize>)
        ensures
            match r {
                Some(i) => i < self.tiles@.len() && self.tiles@[i as int].id == id,
                None => forall|i: int| 0 <= i < self.tiles@.len() ==> self.tiles@[i].id != id,
            },
    {
        let mut i: usize = 0;
        while i < self.tiles.len()
            invariant
                i <= self.tiles@.len(),
                forall|j: int| 0 <= j < i ==> self.tiles@[j].id != id,
            decreases self.tiles@.len() - i,
        {
            if self.tiles[i].id == id {
                return Some(i);
            }
            i = i + 1;
        }
        None
    }

    /// Index of the live player tank with this collider id, if any.
    pub fn find_player(&self, id: u64) -> (r: Option<usize>)
        ensures
            match r {
                Some(i) => i < self.players@.len() && self.players@[i as int].id == id,
                None => forall|i: int| 0 <= i < self.players@.len() ==> self.players@[i].id != id,
            },
    {
        let mut i: usize = 0;
        while i < self.players.len()
            invariant
                i <= self.players@.len(),
                forall|j: int| 0 <= j < i ==> self.players@[j].id != id,
            decreases self.players@.len() - i,
        {
            if self.players[i].id == id {
                return Some(i);
            }
            i = i + 1;
        }
        None
    }

    /// Index of the live enemy tank with this collider id, if any.
    pub fn find_enemy(&self, id: u64) -> (r: Option<usize>)
        ensures
            match r {
                Some(i) => i < self.enemies@.len() && self.enemies@[i as int].id == id,
                None => forall|i: int| 0 <= i < self.enemies@.len() ==> self.enemies@[i].id != id,
            },
    {
        let mut i: usize = 0;
        while i < self.enemies.len()
            invariant
                i <= self.enemies@.len(),
                forall|j: int| 0 <= j < i ==> self.enemies@[j].id != id,
            decreases self.enemies@.len() - i,
        {
            if self.enemies[i].id == id {
                return Some(i);
            }
            i = i + 1;
        }
        None
    }

    /// Index of the bullet with this collider id, if any.
    pub fn find_bullet(&self, id: u64) -> (r: Option<usize>)
        ensures
            match r {
                Some(i) => i < self.bullets@.len() && self.bullets@[i as int].id == id,
                None => forall|i: int| 0 <= i < self.bullets@.len() ==> self.bullets@[i].id != id,
            },
    {
        let mut i: usize = 0;
        while i < self.bullets.len()
            invariant
                i <= self.bullets@.len(),
                forall|j: int| 0 <= j < i ==> self.bullets@[j].id != id,
            decreases self.bullets@.len() - i,
        {
            if self.bullets[i].id == id {
                return Some(i);
            }
            i = i + 1;
        }
        None
    }

    /// Index of the live player tank with this player number, if any.
    pub fn find_player_by_no(&self, no: u8) -> (r: Option<usize>)
        ensures
            match r {
                Some(i) => i < self.players@.len() && self.players@[i as int].player_no == no,
                None => !self.spec_has_player(no),
            },
    {
        let mut i: usize = 0;
        while i < self.players.len()
            invariant
                i <= self.players@.len(),
                forall|j: int| 0 <= j < i ==> self.players@[j].player_no != no,
            decreases self.players@.len() - i,
        {
            if self.players[i].player_no == no {
                return Some(i);
            }
            i = i + 1;
        }
        None
    }

    /// Removes the bullet with this collider id. Idempotent: removing an
    /// already-gone bullet is a no-op, not an error.
    pub fn despawn(&mut self, bullet_id: u64)
        requires
            old(self).wf(),
        ensures
            final(self).wf(),
            (forall|i: int|
                0 <= i < old(self).bullets@.len() ==> old(self).bullets@[i].id != bullet_id)
                ==> *final(self) == *old(self),
            forall|i: int|
                0 <= i < old(self).bullets@.len() && old(self).bullets@[i].id == bullet_id ==> {
                    &&& final(self).bullets@ == old(self).bullets@.remove(i)
                    &&& *final(self) == (GameSession {
                        bullets: final(self).bullets,
                        ..*old(self)
                    })
                },
    {
        if let Some(i) = self.find_bullet(bullet_id) {
            self.bullets.remove(i);
        }
    }

    /// Removes the terrain tile with this collider id and frees its
    /// collider. Idempotent: destroying an already-gone tile is a no-op,
    /// not an error.
    pub fn destroy(&mut self, tile_id: u64)
        requires
            old(self).wf(),
        ensures
            final(self).wf(),
            (forall|i: int| 0 <= i < old(self).tiles@.len() ==> old(self).tiles@[i].id != tile_id)
                ==> *final(self) == *old(self),
            forall|i: int|
                0 <= i < old(self).tiles@.len() && old(self).tiles@[i].id == tile_id ==> {
                    &&& final(self).tiles@ == old(self).tiles@.remove(i)
                    &&& *final(self) == (GameSession { tiles: final(self).tiles, ..*old(self) })
                },
    {
        if let Some(i) = self.find_tile(tile_id) {
            self.tiles.remove(i);
        }
    }

    /// The tile standing at this position, if any (the first one, should a
    /// malformed level stack several).
    pub fn tile_at(&self, pos: crate::geom::Pos) -> (r: Option<Tile>)
        ensures
            match r {
                Some(t) => exists|i: int|
                    0 <= i < self.tiles@.len() && self.tiles@[i] == t && t.pos == pos,
                None => forall|i: int| 0 <= i < self.tiles@.len() ==> self.tiles@[i].pos != pos,
            },
    {
        let mut i: usize = 0;
        while i < self.tiles.len()
            invariant
                i <= self.tiles@.len(),
                forall|j: int| 0 <= j < i ==> self.tiles@[j].pos != pos,
            decreases self.tiles@.len() - i,
        {
            if self.tiles[i].pos == pos {
                return Some(self.tiles[i]);
            }
            i = i + 1;
        }
        None
    }

    /// Whether the tile with this id is the Home base, for win/lose
    /// detection.
    pub fn is_home(&self, tile_id: u64) -> (r: bool)
        ensures
            r <==> exists|i: int|
                0 <= i < self.tiles@.len() && self.tiles@[i].id == tile_id && self.tiles@[i].kind
                    == crate::terrain::LevelItem::Home,
    {
        let mut i: usize = 0;
        while i < self.tiles.len()
            invariant
                i <= self.tiles@.len(),
                forall|j: int|
                    0 <= j < i ==> !(self.tiles@[j].id == tile_id && (#[trigger] self.tiles@[j]).kind
                        == crate::terrain::LevelItem::Home),
            decreases self.tiles@.len() - i,
        {
            if self.tiles[i].id == tile_id && self.tiles[i].kind == crate::terrain::LevelItem::Home {
                return true;
            }
            i = i + 1;
        }
        false
    }

    /// Whether a pending spawn for this player number exists.
    pub fn has_pending(&self, no: u8) -> (r: bool)
        ensures
            r == self.spec_has_pending(no),
    {
        let mut i: usize = 0;
        while i < self.pending_spawns.len()
            invariant
                i <= self.pending_spawns@.len(),
                forall|j: int| 0 <= j < i ==> self.pending_spawns@[j].player_no != no,
            decreases self.pending_spawns@.len() - i,
        {
            if self.pending_spawns[i].player_no == no {
                return true;
            }
            i = i + 1;
        }
        false
    }
}


/// Law: in every well-formed session the live enemy count never exceeds
/// the concurrent cap and the per-level spawn counter never exceeds the
/// quota; every public operation preserves well-formedness, so these
/// bounds hold at every tick.
pub proof fn lemma_population_bounds(s: GameSession)
    requires
        s.wf(),
    ensures
        s.enemies@.len() <= MAX_LIVE_ENEMIES,
        s.spawned_enemies <= ENEMIES_PER_LEVEL,
{
}

} // verus!
