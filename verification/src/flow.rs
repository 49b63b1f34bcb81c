//! The level-progression controller and the top-level game state machine:
//! loading terrain, advancing levels when a quota is cleared, and the
//! menu / playing / paused / game-over transitions.

use vstd::prelude::*;
use crate::entities::{ENEMIES_PER_LEVEL, GAME_OVER_EFFECT_MS, INITIAL_LIVES, MAX_TICK_MS};
use crate::geom::Pos;
use crate::session::{tick_down, GameSession};
use crate::state::{AppState, MenuInput, MultiplayerMode};
use crate::terrain::{LevelItem, Tile};

verus! {

/// The tiles a level's geometry loads into, with fresh sequential collider
/// ids starting at `base`.
pub open spec fn spec_loaded_tiles(g: Seq<(LevelItem, Pos)>, base: u64) -> Seq<Tile> {
    Seq::new(g.len(), |i: int| Tile { id: (base + i) as u64, kind: g[i].0, pos: g[i].1 })
}

/// Loading the same geometry at different id bases lays out the same
/// terrain: tile for tile the same kind at the same position. Re-entering
/// the menu and starting again therefore reloads level terrain identically
/// to a fresh game start.
pub proof fn lemma_level_reload_identical(g: Seq<(LevelItem, Pos)>, b1: u64, b2: u64)
    ensures
        spec_loaded_tiles(g, b1).len() == spec_loaded_tiles(g, b2).len(),
        forall|i: int|
            0 <= i < g.len() ==> spec_loaded_tiles(g, b1)[i].kind == spec_loaded_tiles(g, b2)[
                i
            ].kind && spec_loaded_tiles(g, b1)[i].pos == spec_loaded_tiles(g, b2)[i].pos,
{
}

/// What entering the start menu guarantees, wherever it is entered from
/// (victory, the finished game-over effect, or the restart input): every
/// live gameplay entity, effect and tile despawned, and every counter
/// back at its starting value.
pub open spec fn spec_menu_reset(o: GameSession, n: GameSession) -> bool {
    &&& n.state == AppState::StartMenu
    &&& n.mode == MultiplayerMode::SinglePlayer
    &&& n.levels == o.levels
    &&& n.level_index == 0
    &&& n.spawned_enemies == 0
    &&& n.tiles@.len() == 0
    &&& n.players@.len() == 0
    &&& n.enemies@.len() == 0
    &&& n.bullets@.len() == 0
    &&& n.pending_spawns@.len() == 0
    &&& n.effects@.len() == 0
    &&& n.explosions@.len() == 0
    &&& n.lives1 == INITIAL_LIVES
    &&& n.lives2 == INITIAL_LIVES
    &&& !n.home_destroyed
    &&& n.game_over_ms == 0
    &&& n.next_id == o.next_id
    &&& n.edge_id == o.edge_id
}

/// Whether every participating player's lives are exhausted: in
/// single-player mode player one's, in two-player mode both players'.
pub open spec fn spec_players_out(s: GameSession) -> bool {
    if s.mode == MultiplayerMode::SinglePlayer {
        s.lives1 == 0
    } else {
        s.lives1 == 0 && s.lives2 == 0
    }
}

impl GameSession {
    /// Replaces the terrain with the current level's geometry, giving each
    /// tile a fresh collider id.
    fn load_level_tiles(&mut self)
        requires
            old(self).wf(),
            old(self).next_id + old(self).levels@[old(self).level_index as int].tiles@.len()
                <= u64::MAX,
        ensures
            final(self).wf(),
            final(self).tiles@ == spec_loaded_tiles(
                old(self).levels@[old(self).level_index as int].tiles@,
                old(self).next_id,
            ),
            final(self).next_id == old(self).next_id + old(self).levels@[old(
                self,
            ).level_index as int].tiles@.len(),
            *final(self) == (GameSession {
                tiles: final(self).tiles,
                next_id: final(self).next_id,
                ..*old(self)
            }),
    {
        let ghost g = old(self).levels@[old(self).level_index as int].tiles@;
        let n = self.levels[self.level_index].tiles.len();
        let mut nt: Vec<Tile> = Vec::new();
        let mut i: usize = 0;
        while i < n
            invariant
                self.wf(),
                *self == *old(self),
                g == old(self).levels@[old(self).level_index as int].tiles@,
                old(self).next_id + g.len() <= u64::MAX,
                n == g.len(),
                i <= n,
                nt@.len() == i,
                forall|j: int|
                    0 <= j < i ==> nt@[j] == (Tile {
                        id: (old(self).next_id + j) as u64,
                        kind: g[j].0,
                        pos: g[j].1,
                    }),
            decreases n - i,
        {
            let (kind, pos) = self.levels[self.level_index].tiles[i];
            nt.push(Tile { id: self.next_id + i as u64, kind, pos });
            i = i + 1;
        }
        self.tiles = nt;
        self.next_id = self.next_id + n as u64;
        proof {
            assert(self.tiles@ =~= spec_loaded_tiles(g, old(self).next_id));
        }
    }

    /// Resets the session to the start menu: all live gameplay entities,
    /// effects and terrain are despawned, lives, the level index, the
    /// spawned-enemy counter and the player-count mode start over. The
    /// in-flight timers of whatever was despawned are simply discarded.
    pub fn enter_start_menu(&mut self)
        requires
            old(self).wf(),
        ensures
            final(self).wf(),
            spec_menu_reset(*old(self), *final(self)),
    {
        self.state = AppState::StartMenu;
        self.mode = MultiplayerMode::SinglePlayer;
        self.level_index = 0;
        self.spawned_enemies = 0;
        self.tiles = Vec::new();
        self.players = Vec::new();
        self.enemies = Vec::new();
        self.bullets = Vec::new();
        self.pending_spawns = Vec::new();
        self.effects = Vec::new();
        self.explosions = Vec::new();
        self.lives1 = INITIAL_LIVES;
        self.lives2 = INITIAL_LIVES;
        self.home_destroyed = false;
        self.game_over_ms = 0;
    }

    /// One step of the state machine on a debounced input. The table:
    /// start leaves the menu and loads the current level's terrain, pause
    /// and resume toggle between playing and paused, restart leaves the
    /// game-over screen for the menu. Any other combination is ignored,
    /// not an error.
    pub fn handle_input(&mut self, input: MenuInput)
        requires
            old(self).wf(),
            old(self).state == AppState::StartMenu && input == MenuInput::Start ==> old(
                self,
            ).next_id + old(self).levels@[old(self).level_index as int].tiles@.len() <= u64::MAX,
        ensures
            final(self).wf(),
            old(self).state == AppState::StartMenu && input == MenuInput::Start ==> {
                &&& final(self).state == AppState::Playing
                &&& final(self).tiles@ == spec_loaded_tiles(
                    old(self).levels@[old(self).level_index as int].tiles@,
                    old(self).next_id,
                )
                &&& *final(self) == (GameSession {
                    state: final(self).state,
                    tiles: final(self).tiles,
                    next_id: final(self).next_id,
                    ..*old(self)
                })
            },
            old(self).state == AppState::Playing && input == MenuInput::Pause ==> *final(self)
                == (GameSession { state: AppState::Paused, ..*old(self) }),
            old(self).state == AppState::Paused && input == MenuInput::Resume ==> *final(self)
                == (GameSession { state: AppState::Playing, ..*old(self) }),
            old(self).state == AppState::GameOver && input == MenuInput::Restart
                ==> spec_menu_reset(*old(self), *final(self)),
            !(old(self).state == AppState::StartMenu && input == MenuInput::Start) && !(old(
                self,
            ).state == AppState::Playing && input == MenuInput::Pause) && !(old(self).state
                == AppState::Paused && input == MenuInput::Resume) && !(old(self).state
                == AppState::GameOver && input == MenuInput::Restart) ==> *final(self) == *old(
                self,
            ),
    {
        match (self.state, input) {
            (AppState::StartMenu, MenuInput::Start) => {
                self.state = AppState::Playing;
                self.load_level_tiles();
            },
            (AppState::Playing, MenuInput::Pause) => {
                self.state = AppState::Paused;
            },
            (AppState::Paused, MenuInput::Resume) => {
                self.state = AppState::Playing;
            },
            (AppState::GameOver, MenuInput::Restart) => {
                self.enter_start_menu();
            },
            _ => {},
        }
    }

    /// Toggles between single-player and two-player mode; only meaningful
    /// on the start menu, where it is the one thing the menu changes.
    pub fn switch_multiplayer_mode(&mut self)
        requires
            old(self).wf(),
            old(self).state == AppState::StartMenu,
        ensures
            final(self).wf(),
            final(self).mode == (if old(self).mode == MultiplayerMode::SinglePlayer {
                MultiplayerMode::TwoPlayers
            } else {
                MultiplayerMode::SinglePlayer
            }),
            *final(self) == (GameSession { mode: final(self).mode, ..*old(self) }),
    {
        self.mode = if self.mode == MultiplayerMode::SinglePlayer {
            MultiplayerMode::TwoPlayers
        } else {
            MultiplayerMode::SinglePlayer
        };
    }

    /// The state machine's terminal evaluation, run once per tick while
    /// playing: the game is over exactly when the Home was destroyed or
    /// every participating player's lives are exhausted, whichever came
    /// first, and regardless of remaining lives in the Home's case.
    pub fn evaluate_terminal(&mut self)
        requires
            old(self).wf(),
        ensures
            final(self).wf(),
            old(self).state == AppState::Playing && (old(self).home_destroyed || spec_players_out(
                *old(self),
            )) ==> *final(self) == (GameSession {
                state: AppState::GameOver,
                game_over_ms: GAME_OVER_EFFECT_MS,
                ..*old(self)
            }),
            !(old(self).state == AppState::Playing && (old(self).home_destroyed
                || spec_players_out(*old(self)))) ==> *final(self) == *old(self),
    {
        if self.state == AppState::Playing {
            let out = if self.mode == MultiplayerMode::SinglePlayer {
                self.lives1 == 0
            } else {
                self.lives1 == 0 && self.lives2 == 0
            };
            if self.home_destroyed || out {
                self.state = AppState::GameOver;
                self.game_over_ms = GAME_OVER_EFFECT_MS;
            }
        }
    }

    /// Plays the fixed-duration game-over effect forward; when it
    /// completes, the session returns to the start menu with everything
    /// reset.
    pub fn animate_game_over(&mut self, dt_ms: u32)
        requires
            old(self).wf(),
            dt_ms <= MAX_TICK_MS,
        ensures
            final(self).wf(),
            old(self).state != AppState::GameOver ==> *final(self) == *old(self),
            old(self).state == AppState::GameOver && old(self).game_over_ms > dt_ms ==> *final(self) == (GameSession {
                game_over_ms: (old(self).game_over_ms - dt_ms) as u32,
                ..*old(self)
            }),
            old(self).state == AppState::GameOver && old(self).game_over_ms <= dt_ms
                ==> spec_menu_reset(*old(self), *final(self)),
    {
        if self.state == AppState::GameOver {
            let t = tick_down(self.game_over_ms, dt_ms);
            if t == 0 {
                self.enter_start_menu();
            } else {
                self.game_over_ms = t;
            }
        }
    }

    /// The level controller's per-tick decision: once the level's quota is
    /// fully spawned and no enemy remains alive, the game advances — to
    /// the next level (resetting the spawned counter, despawning the
    /// players for a fresh two-phase respawn, and replacing the terrain),
    /// or, from the last level, to victory, which returns to the start
    /// menu. Otherwise nothing changes.
    pub fn auto_switch_level(&mut self)
        requires
            old(self).wf(),
            old(self).state == AppState::Playing,
            old(self).level_index + 1 < old(self).levels@.len() ==> old(self).next_id + old(
                self,
            ).levels@[old(self).level_index as int + 1].tiles@.len() <= u64::MAX,
        ensures
            final(self).wf(),
            !(old(self).spawned_enemies == ENEMIES_PER_LEVEL && old(self).enemies@.len() == 0)
                ==> *final(self) == *old(self),
            old(self).spawned_enemies == ENEMIES_PER_LEVEL && old(self).enemies@.len() == 0 && old(
                self,
            ).level_index + 1 == old(self).levels@.len() ==> spec_menu_reset(
                *old(self),
                *final(self),
            ),
            old(self).spawned_enemies == ENEMIES_PER_LEVEL && old(self).enemies@.len() == 0 && old(
                self,
            ).level_index + 1 < old(self).levels@.len() ==> {
                &&& final(self).level_index == old(self).level_index + 1
                &&& final(self).spawned_enemies == 0
                &&& final(self).players@.len() == 0
                &&& final(self).tiles@ == spec_loaded_tiles(
                    old(self).levels@[old(self).level_index as int + 1].tiles@,
                    old(self).next_id,
                )
                &&& *final(self) == (GameSession {
                    level_index: final(self).level_index,
                    spawned_enemies: final(self).spawned_enemies,
                    players: final(self).players,
                    tiles: final(self).tiles,
                    next_id: final(self).next_id,
                    ..*old(self)
                })
            },
    {
        if self.spawned_enemies == ENEMIES_PER_LEVEL && self.enemies.len() == 0 {
            let nl = self.levels.len();
            if self.level_index + 1 == nl {
                // Final level cleared: victory returns to the start menu.
                self.enter_start_menu();
            } else {
                self.level_index = self.level_index + 1;
                self.spawned_enemies = 0;
                self.players = Vec::new();
                self.load_level_tiles();
            }
        }
    }
}

} // verus!
