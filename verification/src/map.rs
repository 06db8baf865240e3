//! The game world: a grid of terrain and the monsters on it.
use vstd::prelude::*;
use crate::mon::Mon;

verus! {

/// The number of columns of the map.
pub const MAP_W: usize = 256;

/// The number of rows of the map.
pub const MAP_H: usize = 256;

/// What a cell of the map is made of.
#[derive(Clone, Copy, Debug, PartialEq, Eq, Structural)]
pub enum Ter {
    Floor,
    Wall,
}

/// The game world.
///
/// `ter` holds the terrain by column: the cell in column `x` and row `y` is
/// `ter[x][y]`. `monsters` holds the monsters in the order in which they
/// were added.
pub struct GameMap {
    pub ter: [[Ter; MAP_H]; MAP_W],
    pub monsters: Vec<Mon>,
}

impl GameMap {
    /// Whether `(x, y)` is a cell of the map.
    pub open spec fn has_cell(x: int, y: int) -> bool {
        0 <= x < MAP_W && 0 <= y < MAP_H
    }

    /// The terrain of the cell `(x, y)`.
    pub open spec fn ter_at(self, x: int, y: int) -> Ter
        recommends
            Self::has_cell(x, y),
    {
        self.ter[x][y]
    }

    /// A map of solid wall, with no monsters on it.
    pub fn new() -> (game_map: GameMap)
        ensures
            forall|x: int, y: int|
                Self::has_cell(x, y) ==> #[trigger] game_map.ter_at(x, y) == Ter::Wall,
            game_map.monsters@.len() == 0,
    {
        GameMap { ter: [[Ter::Wall; MAP_H]; MAP_W], monsters: Vec::new() }
    }
}

} // verus!
