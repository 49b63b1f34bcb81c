//! Simulation core of a top-down arena tank battle: entity lifecycle,
//! collision resolution, level progression and the top-level game state
//! machine, verified with Verus. Rendering, audio, asset loading, input
//! devices and the physics broad phase are outside collaborators: the core
//! consumes already-detected touch events and already-parsed level geometry,
//! and emits abstract effect requests.

pub mod bullets;
pub mod combat;
pub mod effects;
pub mod entities;
pub mod flow;
pub mod geom;
pub mod levels;
pub mod resolver;
pub mod session;
pub mod spawn;
pub mod state;
pub mod tanks;
pub mod terrain;
pub mod wander;

pub use combat::HitOutcome;
pub use entities::{Bullet, Combatant, ExplosionEvent, ExplosionType, Faction, TouchEvent};
pub use geom::{Direction, Pos};
pub use levels::LevelGeometry;
pub use resolver::{Outcome, Resolution};
pub use session::GameSession;
pub use state::{AppState, MenuInput, MultiplayerMode};
pub use terrain::{LevelItem, Tile};
pub use wander::Movable;
