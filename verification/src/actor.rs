use vstd::prelude::*;
use crate::geom::{coord_ok, half_ok, vel_ok};

verus! {

/// Half-width of the player's fixed 16 by 32 hitbox.
pub const PLAYER_HALF_W: i64 = 8;

/// Half-height of the player's fixed 16 by 32 hitbox.
pub const PLAYER_HALF_H: i64 = 16;

/// Half-side of an enemy's fixed 32 by 32 hitbox.
pub const ENEMY_HALF: i64 = 16;

/// Vertical speed given to an actor when it jumps or bounces off a stomped
/// enemy.
pub const JUMP_SPEED: i64 = 14;

/// Anything subject to gravity and tile collision: position, per-frame
/// velocity, the half-extents of its bounding box, and its jump state.
#[derive(Clone, Copy, PartialEq, Eq, Structural, Debug)]
pub struct Actor {
    pub x: i64,
    pub y: i64,
    pub vx: i64,
    pub vy: i64,
    pub half_w: i64,
    pub half_h: i64,
    pub grounded: bool,
    pub jumped: bool,
    pub coyote_time: u8,
    pub jump_count: u8,
    pub jump_limit: u8,
}

impl Actor {
    /// Numeric well-formedness: everything stays far away from the integer
    /// limits, so one frame of arithmetic can never overflow.
    pub open spec fn wf(self) -> bool {
        &&& coord_ok(self.x as int)
        &&& coord_ok(self.y as int)
        &&& vel_ok(self.vx as int)
        &&& vel_ok(self.vy as int)
        &&& half_ok(self.half_w as int)
        &&& half_ok(self.half_h as int)
    }
}

/// The state a freshly spawned player starts in: at rest, airborne, with a
/// single jump available.
pub fn player_initial(x: i64, y: i64) -> (r: Actor)
    ensures
        r == (Actor {
            x,
            y,
            vx: 0,
            vy: 0,
            half_w: PLAYER_HALF_W,
            half_h: PLAYER_HALF_H,
            grounded: false,
            jumped: false,
            coyote_time: 0,
            jump_count: 0,
            jump_limit: 1,
        }),
{
    Actor {
        x,
        y,
        vx: 0,
        vy: 0,
        half_w: PLAYER_HALF_W,
        half_h: PLAYER_HALF_H,
        grounded: false,
        jumped: false,
        coyote_time: 0,
        jump_count: 0,
        jump_limit: 1,
    }
}

/// The state a freshly spawned enemy starts in: at rest, airborne, and
/// unable to jump at all.
pub fn enemy_initial(x: i64, y: i64) -> (r: Actor)
    ensures
        r == (Actor {
            x,
            y,
            vx: 0,
            vy: 0,
            half_w: ENEMY_HALF,
            half_h: ENEMY_HALF,
            grounded: false,
            jumped: false,
            coyote_time: 0,
            jump_count: 0,
            jump_limit: 0,
        }),
{
    Actor {
        x,
        y,
        vx: 0,
        vy: 0,
        half_w: ENEMY_HALF,
        half_h: ENEMY_HALF,
        grounded: false,
        jumped: false,
        coyote_time: 0,
        jump_count: 0,
        jump_limit: 0,
    }
}

} // verus!
