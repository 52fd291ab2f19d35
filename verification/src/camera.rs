use vstd::prelude::*;
use crate::geom::coord_ok;
use crate::level::LevelBounds;

verus! {

/// Half the side of the 512 by 512 view the camera shows.
pub const CAM_HALF: i64 = 256;

/// Where the camera should sit for a player at the given position: it
/// follows the player, offset half a screen down, but is held back at the
/// level's edges so the view never leaves the level horizontally nor sinks
/// below its floor.
pub open spec fn camera_target_spec(px: i64, py: i64, b: LevelBounds) -> (int, int) {
    let cx = if px > b.x_off + b.width - CAM_HALF {
        b.x_off + b.width - CAM_HALF
    } else if px < b.x_off + CAM_HALF {
        b.x_off + CAM_HALF
    } else {
        px as int
    };
    let cy = if py - CAM_HALF > b.y_off + b.height / 2 - CAM_HALF {
        b.y_off + b.height / 2 - CAM_HALF
    } else if py - CAM_HALF < b.y_off {
        b.y_off as int
    } else {
        py - CAM_HALF
    };
    (cx, cy)
}

/// Compute the camera position for this frame.
pub fn camera_target(px: i64, py: i64, b: &LevelBounds) -> (r: (i64, i64))
    requires
        coord_ok(px as int),
        coord_ok(py as int),
        b.wf(),
    ensures
        r.0 == camera_target_spec(px, py, *b).0,
        r.1 == camera_target_spec(px, py, *b).1,
{
    let cx: i64 = if px > b.x_off + b.width - CAM_HALF {
        b.x_off + b.width - CAM_HALF
    } else if px < b.x_off + CAM_HALF {
        b.x_off + CAM_HALF
    } else {
        px
    };
    let half_h: i64 = b.height / 2;
    let cy: i64 = if py - CAM_HALF > b.y_off + half_h - CAM_HALF {
        b.y_off + half_h - CAM_HALF
    } else if py - CAM_HALF < b.y_off {
        b.y_off
    } else {
        py - CAM_HALF
    };
    (cx, cy)
}

} // verus!
