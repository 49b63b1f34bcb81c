//! The dynamic entities of a battle: combatants (player and enemy tanks),
//! bullets, pending two-phase player spawns, and the effect requests the
//! core hands to the rendering collaborator.

use vstd::prelude::*;
use crate::geom::{Direction, Pos};

verus! {

/// Side a combatant or a bullet belongs to. Faction decides friendly-fire
/// immunity and bullet ownership.
#[derive(Debug, Clone, Copy, PartialEq, Eq, Structural)]
pub enum Faction {
    Player,
    Enemy,
}

/// Number of lives each player starts a game with.
pub const INITIAL_LIVES: u8 = 3;
/// Largest number of enemies alive at once.
pub const MAX_LIVE_ENEMIES: usize = 5;
/// Number of enemies a level spawns in total.
pub const ENEMIES_PER_LEVEL: u32 = 12;

/// Milliseconds a player must wait between two shots.
pub const PLAYER_REFRESH_BULLET_INTERVAL_MS: u32 = 500;
/// Milliseconds an enemy must wait between two shots.
pub const ENEMY_REFRESH_BULLET_INTERVAL_MS: u32 = 2000;
/// Milliseconds the post-spawn invulnerability shield lasts.
pub const SHIELD_DURATION_MS: u32 = 5000;
/// Milliseconds the two-phase birth effect plays before the tank goes live.
pub const BORN_DURATION_MS: u32 = 2000;
/// Milliseconds an enemy keeps its direction before re-evaluating.
pub const ENEMY_DIRECTION_INTERVAL_MS: u32 = 1000;
/// Milliseconds the game-over effect plays before returning to the menu.
pub const GAME_OVER_EFFECT_MS: u32 = 3000;
/// Milliseconds one frame of an explosion effect is shown.
pub const EXPLOSION_FRAME_MS: u32 = 50;

/// Player tank speed, world units per second.
pub const PLAYER_SPEED: i32 = 150;
/// Enemy tank speed, world units per second.
pub const ENEMY_SPEED: i32 = 100;
/// Bullet speed, world units per second.
pub const BULLET_SPEED: i32 = 300;

/// Longest tick the simulation accepts, in milliseconds.
pub const MAX_TICK_MS: u32 = 60000;

/// A player or enemy tank.
#[derive(Debug, Clone, Copy, PartialEq, Eq, Structural)]
pub struct Combatant {
    /// Identity of the tank's collider, unique among all collidable
    /// entities of the session.
    pub id: u64,
    pub faction: Faction,
    /// 1 or 2 for players; 0 for enemies.
    pub player_no: u8,
    pub pos: Pos,
    /// Facing direction; also the direction a fired bullet travels.
    pub dir: Direction,
    /// Velocity handed to the physics collaborator, world units per second.
    /// At most one axis is ever non-zero.
    pub vel_x: i32,
    pub vel_y: i32,
    /// Milliseconds left until the tank may fire again; 0 means ready.
    pub fire_cooldown_ms: u32,
    /// Milliseconds of invulnerability left; 0 means no shield.
    pub shield_ms: u32,
    /// Milliseconds left until an enemy re-evaluates its direction.
    /// Unused for players.
    pub turn_timer_ms: u32,
}

impl Combatant {
    /// Whether the post-spawn invulnerability window is still open.
    pub open spec fn spec_shielded(self) -> bool {
        self.shield_ms > 0
    }

}

/// A bullet in flight. Its collider is sensor-only: it reports overlap and
/// never blocks movement.
#[derive(Debug, Clone, Copy, PartialEq, Eq, Structural)]
pub struct Bullet {
    /// Identity of the bullet's collider, unique among all collidable
    /// entities of the session.
    pub id: u64,
    /// Faction of the tank that fired it.
    pub owner: Faction,
    pub dir: Direction,
    pub pos: Pos,
}

/// A player spawn in its first, non-collidable phase: the birth effect is
/// playing and the tank does not exist yet, so nothing can hit it.
#[derive(Debug, Clone, Copy, PartialEq, Eq, Structural)]
pub struct PendingSpawn {
    /// 1 or 2.
    pub player_no: u8,
    pub pos: Pos,
    /// Milliseconds of birth effect left; at 0 the spawn converts into a
    /// live, shielded combatant.
    pub remaining_ms: u32,
}

/// Kind of explosion effect the rendering collaborator is asked to play.
#[derive(Debug, Clone, Copy, PartialEq, Eq, Structural)]
pub enum ExplosionType {
    /// Large blast: a destroyed tank or the Home.
    BigExplosion,
    /// Small puff: a bullet spent on terrain, the arena edge, or a shield.
    BulletExplosion,
}

/// One effect request, drained once per tick by the rendering collaborator.
#[derive(Debug, Clone, Copy, PartialEq, Eq, Structural)]
pub struct ExplosionEvent {
    pub pos: Pos,
    pub explosion_type: ExplosionType,
}

/// A timed visual effect whose lifetime the core owns: it counts frames and
/// is despawned after its last frame.
#[derive(Debug, Clone, Copy, PartialEq, Eq, Structural)]
pub struct Explosion {
    pub pos: Pos,
    /// Index of the frame currently shown.
    pub frame: u32,
    /// Index of the last frame of this effect.
    pub last_frame: u32,
    /// Milliseconds until the next frame.
    pub frame_timer_ms: u32,
}

/// A raw pairwise touch report from the physics collaborator: the two
/// collider ids that overlapped. Reports arrive unordered and may repeat.
#[derive(Debug, Clone, Copy, PartialEq, Eq, Structural)]
pub struct TouchEvent {
    pub a: u64,
    pub b: u64,
}

} // verus!
