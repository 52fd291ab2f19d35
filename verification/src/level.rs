use vstd::prelude::*;
use crate::geom::{Aabb, coord_ok, TILE_HALF, POS_LIMIT};

verus! {

/// A static solid tile: a 32 by 32 square of level terrain, given by its
/// centre. Tiles are immutable for the whole session.
#[derive(Clone, Copy, PartialEq, Eq, Structural, Debug)]
pub struct Tile {
    pub x: i64,
    pub y: i64,
}

impl Tile {
    pub open spec fn wf(self) -> bool {
        coord_ok(self.x as int) && coord_ok(self.y as int)
    }

    /// The collision box of the tile.
    pub open spec fn tile_box(self) -> Aabb {
        Aabb { x: self.x, y: self.y, hx: TILE_HALF, hy: TILE_HALF }
    }
}

pub open spec fn tiles_wf(ts: Seq<Tile>) -> bool {
    forall|i: int| 0 <= i < ts.len() ==> (#[trigger] ts[i]).wf()
}

/// The playable rectangle of the loaded level: its world-space offset and
/// its extent in world units.
#[derive(Clone, Copy, PartialEq, Eq, Structural, Debug)]
pub struct LevelBounds {
    pub x_off: i64,
    pub y_off: i64,
    pub width: i64,
    pub height: i64,
}

impl LevelBounds {
    pub open spec fn wf(self) -> bool {
        &&& coord_ok(self.x_off as int)
        &&& coord_ok(self.y_off as int)
        &&& 0 <= self.width <= POS_LIMIT
        &&& 0 <= self.height <= POS_LIMIT
    }
}

/// Where a spawn point repositions the player when a level has finished
/// loading: each axis is overridden by the spawn point (shifted into world
/// space by the level offset) only if the matching flag is set.
pub fn apply_player_spawn(
    px: i64,
    py: i64,
    spawn_x: i64,
    spawn_y: i64,
    affect_x: bool,
    affect_y: bool,
    level_x_off: i64,
    level_y_off: i64,
) -> (r: (i64, i64))
    requires
        coord_ok(spawn_x as int),
        coord_ok(spawn_y as int),
        coord_ok(level_x_off as int),
        coord_ok(level_y_off as int),
    ensures
        r.0 == if affect_x {
            spawn_x + level_x_off
        } else {
            px as int
        },
        r.1 == if affect_y {
            spawn_y + level_y_off
        } else {
            py as int
        },
{
    let nx: i64 = if affect_x {
        spawn_x + level_x_off
    } else {
        px
    };
    let ny: i64 = if affect_y {
        spawn_y + level_y_off
    } else {
        py
    };
    (nx, ny)
}

} // verus!
