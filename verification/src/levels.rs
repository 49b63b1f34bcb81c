//! Parsed level geometry, as the level-file collaborator hands it over:
//! tile kinds with world positions and the named spawn markers. No file
//! format is known here.

use vstd::prelude::*;
use crate::geom::Pos;
use crate::terrain::LevelItem;

verus! {

/// Everything the core needs to know about one level: where the terrain
/// tiles sit and where tanks may appear.
#[derive(Debug, Clone, PartialEq, Eq)]
pub struct LevelGeometry {
    /// Tile kinds and their world positions.
    pub tiles: Vec<(LevelItem, Pos)>,
    /// Where player one is (re)born.
    pub player1_marker: Pos,
    /// Where player two is (re)born.
    pub player2_marker: Pos,
    /// Candidate enemy spawn points. May be empty: the level then degrades
    /// to one where no enemies ever appear.
    pub enemy_markers: Vec<Pos>,
}

impl LevelGeometry {
    /// The spawn marker of the given player number (1 or 2).
    pub open spec fn spec_player_marker(self, no: u8) -> Pos {
        if no == 1 {
            self.player1_marker
        } else {
            self.player2_marker
        }
    }

    /// Executable twin of [`Self::spec_player_marker`].
    pub fn player_marker(&self, no: u8) -> (r: Pos)
        ensures
            r == self.spec_player_marker(no),
    {
        if no == 1 {
            self.player1_marker
        } else {
            self.player2_marker
        }
    }
}

} // verus!
