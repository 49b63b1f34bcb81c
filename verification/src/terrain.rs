//! Terrain tiles: the static level items a bullet or a tank can touch.

use vstd::prelude::*;
use crate::geom::Pos;

verus! {

/// Kind of a terrain tile.
///
/// Brick is destroyed by any hit; Iron absorbs a bullet but survives; Tree
/// blocks nothing and has no collider; Water blocks movement but not
/// bullets; Home is destructible and its destruction ends the game.
#[derive(Debug, Clone, Copy, PartialEq, Eq, Structural)]
pub enum LevelItem {
    BrickWall,
    IronWall,
    Tree,
    Water,
    Home,
}

impl LevelItem {
    /// Whether a bullet overlapping a tile of this kind resolves against it.
    /// Water lets bullets pass; Tree has no collider at all.
    pub open spec fn spec_stops_bullets(self) -> bool {
        self == LevelItem::BrickWall || self == LevelItem::IronWall || self == LevelItem::Home
    }

    /// Executable twin of [`Self::spec_stops_bullets`].
    pub fn stops_bullets(self) -> (r: bool)
        ensures
            r == self.spec_stops_bullets(),
    {
        match self {
            LevelItem::BrickWall | LevelItem::IronWall | LevelItem::Home => true,
            LevelItem::Tree | LevelItem::Water => false,
        }
    }

    /// Whether a hit removes the tile. Only Brick is cleared by gunfire; the
    /// Home is destructible too, but its destruction is a terminal event
    /// handled by the resolver, not a removal.
    pub open spec fn spec_destructible(self) -> bool {
        self == LevelItem::BrickWall
    }

    /// Whether a tank cannot drive through a tile of this kind. Trees are
    /// decorative only.
    pub open spec fn spec_blocks_movement(self) -> bool {
        self != LevelItem::Tree
    }

    /// Executable twin of [`Self::spec_blocks_movement`].
    pub fn blocks_movement(self) -> (r: bool)
        ensures
            r == self.spec_blocks_movement(),
    {
        match self {
            LevelItem::Tree => false,
            _ => true,
        }
    }
}

/// One terrain tile, placed at level load.
#[derive(Debug, Clone, Copy, PartialEq, Eq, Structural)]
pub struct Tile {
    /// Identity of the tile's collider, unique among all collidable entities
    /// of the session.
    pub id: u64,
    pub kind: LevelItem,
    pub pos: Pos,
}

} // verus!
