use vstd::prelude::*;

verus! {

/// Largest magnitude allowed for a position coordinate.
pub const POS_LIMIT: i64 = 1_000_000_000;

/// Largest half-extent allowed for a box.
pub const SIZE_LIMIT: i64 = 1_000_000;

/// Largest magnitude allowed for a per-frame velocity component.
pub const VEL_LIMIT: i64 = 1_000_000;

/// Half the side of a solid tile: tiles are squares of 32 by 32 units.
pub const TILE_HALF: i64 = 16;

/// Every coordinate an overlap test may see, including positions corrected
/// part-way through a physics pass, stays within this magnitude.
pub const RANGE_LIMIT: i64 = 8_000_000_000;

pub open spec fn coord_ok(v: int) -> bool {
    -POS_LIMIT <= v <= POS_LIMIT
}

pub open spec fn half_ok(v: int) -> bool {
    0 <= v <= SIZE_LIMIT
}

pub open spec fn vel_ok(v: int) -> bool {
    -VEL_LIMIT <= v <= VEL_LIMIT
}

/// An axis-aligned box given by its centre and its half-extents.
#[derive(Clone, Copy, PartialEq, Eq, Structural, Debug)]
pub struct Aabb {
    pub x: i64,
    pub y: i64,
    pub hx: i64,
    pub hy: i64,
}

impl Aabb {
    pub open spec fn wf(self) -> bool {
        coord_ok(self.x as int) && coord_ok(self.y as int) && half_ok(self.hx as int)
            && half_ok(self.hy as int)
    }

    /// A looser bound than `wf`, satisfied also by boxes built from positions
    /// that a physics pass has already corrected once.
    pub open spec fn in_range(self) -> bool {
        &&& -RANGE_LIMIT <= self.x <= RANGE_LIMIT
        &&& -RANGE_LIMIT <= self.y <= RANGE_LIMIT
        &&& 0 <= self.hx <= RANGE_LIMIT
        &&& 0 <= self.hy <= RANGE_LIMIT
    }
}

/// Strict overlap of two boxes: their interiors share area on both axes.
/// A box that merely touches another along an edge does not overlap it.
pub open spec fn overlaps(a: Aabb, b: Aabb) -> bool {
    &&& a.x - a.hx < b.x + b.hx
    &&& a.x + a.hx > b.x - b.hx
    &&& a.y - a.hy < b.y + b.hy
    &&& a.y + a.hy > b.y - b.hy
}

/// The single collision primitive every physics and interaction check is
/// built on: do the two boxes overlap strictly on both axes?
pub fn boxes_overlap(a: &Aabb, b: &Aabb) -> (r: bool)
    requires
        a.in_range(),
        b.in_range(),
    ensures
        r == overlaps(*a, *b),
{
    a.x - a.hx < b.x + b.hx && a.x + a.hx > b.x - b.hx && a.y - a.hy < b.y + b.hy && a.y + a.hy
        > b.y - b.hy
}

} // verus!
