use vstd::prelude::*;
use crate::actor::{Actor, JUMP_SPEED};

verus! {

/// Horizontal speed given to a player while a move key is held.
pub const RUN_SPEED: i64 = 4;

/// Releasing the jump key early cuts the upward speed down to this.
pub const JUMP_CUT: i64 = 3;

/// One frame of sampled input for one player: held directions plus the
/// pressed/released edges of the jump key. Sampling the keyboard is the
/// runtime's job; the core only reads these flags.
#[derive(Clone, Copy, PartialEq, Eq, Structural, Debug)]
pub struct InputFrame {
    pub left: bool,
    pub right: bool,
    pub jump_pressed: bool,
    pub jump_released: bool,
}

/// Which local player slot the input belongs to. The two slots differ in
/// one detail: the first may jump with either coyote grace or a jump left,
/// the second only with both.
#[derive(Clone, Copy, PartialEq, Eq, Structural, Debug)]
pub enum PlayerSlot {
    One,
    Two,
}

/// What one frame of input does to a player's velocity and jump state:
/// held directions set the horizontal intent (right wins over left, neither
/// stops the player); a jump press, when a jump is available, launches
/// upward, marks the actor as having jumped, spends one jump and ends the
/// coyote grace; an early release cuts a fast ascent short.
pub open spec fn player_move_spec(slot: PlayerSlot, inp: InputFrame, a: Actor) -> Actor {
    let a1 = if inp.right {
        Actor { vx: RUN_SPEED, ..a }
    } else if inp.left {
        Actor { vx: (-RUN_SPEED) as i64, ..a }
    } else {
        Actor { vx: 0, ..a }
    };
    let can_jump = match slot {
        PlayerSlot::One => a1.coyote_time > 0 || a1.jump_count > 0,
        PlayerSlot::Two => a1.coyote_time > 0 && a1.jump_count > 0,
    };
    let a2 = if inp.jump_pressed && can_jump {
        Actor {
            vy: JUMP_SPEED,
            jumped: true,
            jump_count: (a1.jump_count - 1) as u8,
            coyote_time: 0,
            ..a1
        }
    } else {
        a1
    };
    if inp.jump_released && a2.vy > JUMP_CUT && a2.jumped {
        Actor { vy: JUMP_CUT, ..a2 }
    } else {
        a2
    }
}

/// Input never grants jumps: a player within its limit stays within it,
/// since a jump press only ever spends one. The excluded input is the one
/// the executable function refuses too: the first slot pressing jump on
/// coyote grace alone, with no jump left to spend.
pub proof fn lemma_player_move_keeps_jump_invariant(slot: PlayerSlot, inp: InputFrame, a: Actor)
    requires
        a.jump_count <= a.jump_limit,
        !(slot == PlayerSlot::One && inp.jump_pressed && a.coyote_time > 0 && a.jump_count == 0),
    ensures
        player_move_spec(slot, inp, a).jump_count <= player_move_spec(slot, inp, a).jump_limit,
{
}

/// Apply one frame of input to a player before its physics step. A jump
/// taken purely on coyote grace still spends a jump, so the first slot's
/// looser gate requires a jump to actually be left to spend.
pub fn player_move(slot: PlayerSlot, inp: &InputFrame, a: &mut Actor)
    requires
        !(slot == PlayerSlot::One && inp.jump_pressed && old(a).coyote_time > 0 && old(
            a,
        ).jump_count == 0),
    ensures
        *final(a) == player_move_spec(slot, *inp, *old(a)),
{
    if inp.right {
        a.vx = RUN_SPEED;
    } else if inp.left {
        a.vx = -RUN_SPEED;
    } else {
        a.vx = 0;
    }
    let can_jump = match slot {
        PlayerSlot::One => a.coyote_time > 0 || a.jump_count > 0,
        PlayerSlot::Two => a.coyote_time > 0 && a.jump_count > 0,
    };
    if inp.jump_pressed && can_jump {
        a.vy = JUMP_SPEED;
        a.jumped = true;
        a.jump_count = a.jump_count - 1;
        a.coyote_time = 0;
    }
    if inp.jump_released && a.vy > JUMP_CUT && a.jumped {
        a.vy = JUMP_CUT;
    }
}

} // verus!
