use pillars_core::actor::Actor;
use pillars_core::level::{LevelBounds, Tile};
use pillars_core::input::{player_move, InputFrame, PlayerSlot};
use pillars_core::physics::{bookkeep_step, gravity_step, physics_step};

fn wide_bounds() -> LevelBounds {
    LevelBounds { x_off: -100_000, y_off: -100_000, width: 200_000, height: 200_000 }
}

fn falling_player(x: i64, y: i64, vx: i64, vy: i64) -> Actor {
    Actor {
        x,
        y,
        vx,
        vy,
        half_w: 8,
        half_h: 16,
        grounded: false,
        jumped: false,
        coyote_time: 0,
        jump_count: 0,
        jump_limit: 1,
    }
}

#[test]
fn lands_on_single_tile_scenario() {
    // Actor at the origin, drifting down, one solid tile right underneath:
    // after one step it rests with its bottom edge on the tile's top edge,
    // grounded, with vertical velocity zeroed.
    let a = falling_player(0, 0, 0, -1);
    let tiles = vec![Tile { x: 0, y: -32 }];
    let r = physics_step(&a, &tiles, &wide_bounds()).expect("actor survives");
    assert_eq!(r.y, 0);
    assert_eq!(r.y - r.half_h, -16); // bottom edge on the tile top
    assert_eq!(r.vy, 0);
    assert!(r.grounded);
    assert!(!r.jumped);
    assert_eq!(r.x, 0);
    assert_eq!(r.vx, 0);
}

#[test]
fn landing_clears_jumped_flag() {
    let mut a = falling_player(0, 0, 0, -1);
    a.jumped = true;
    let tiles = vec![Tile { x: 0, y: -32 }];
    let r = physics_step(&a, &tiles, &wide_bounds()).expect("actor survives");
    assert!(r.grounded);
    assert!(!r.jumped);
    assert_eq!(r.vy, 0);
}

#[test]
fn jump_count_stays_within_limit() {
    let mut a = falling_player(0, 0, 0, 0);
    a.grounded = true;
    a.jump_count = 3;
    a.jump_limit = 3;
    let tiles: Vec<Tile> = Vec::new();
    let r = physics_step(&a, &tiles, &wide_bounds()).expect("actor survives");
    assert!(r.jump_count <= r.jump_limit);
    assert_eq!(r.jump_count, 3); // refreshed by the ground
    assert_eq!(r.coyote_time, 4); // reset to 5, then ticked down once
    assert!(!r.grounded); // re-asserted only by a tile underneath
}

#[test]
fn ledge_fall_consumes_exactly_one_jump() {
    let mut a = falling_player(0, 0, 0, 0);
    a.jump_count = 2;
    a.jump_limit = 2;
    let tiles: Vec<Tile> = Vec::new();
    let r = physics_step(&a, &tiles, &wide_bounds()).expect("actor survives");
    assert_eq!(r.jump_count, 1);
    // ...and the lost jump does not come back while still airborne.
    let r2 = physics_step(&r, &tiles, &wide_bounds()).expect("actor survives");
    assert_eq!(r2.jump_count, 1);
}

#[test]
fn horizontal_collision_zeroes_vx_only() {
    // Moving right into a tile: the horizontal velocity is zeroed and the
    // actor is pushed out to the tile edge; the vertical axis only sees
    // gravity.
    let a = falling_player(0, 0, 4, 5);
    let tiles = vec![Tile { x: 16, y: 0 }];
    let r = physics_step(&a, &tiles, &wide_bounds()).expect("actor survives");
    assert_eq!(r.vx, 0);
    assert_eq!(r.vy, 4); // 5 less one frame of gravity, untouched by the push
    assert_eq!(r.x, -8); // pushed out so the right edge met the tile's left edge
    assert_eq!(r.y, 4); // integration applied the corrected velocity
}

#[test]
fn fallen_actor_is_removed() {
    let bounds = LevelBounds { x_off: -100_000, y_off: 0, width: 200_000, height: 200_000 };
    let a = falling_player(0, 0, 0, -1);
    let tiles: Vec<Tile> = Vec::new();
    // Projected bottom edge ends below the lower bound: the actor is gone.
    assert!(physics_step(&a, &tiles, &bounds).is_none());
    // High enough above the floor it survives.
    let b = falling_player(0, 100, 0, -1);
    assert!(physics_step(&b, &tiles, &bounds).is_some());
}

#[test]
fn gravity_stops_at_terminal_velocity() {
    let a = falling_player(0, 0, 0, -11);
    let g1 = gravity_step(&a);
    assert_eq!(g1.vy, -12);
    let g2 = gravity_step(&g1);
    assert_eq!(g2.vy, -12);
}

#[test]
fn bound_clamp_keeps_velocity() {
    let bounds = LevelBounds { x_off: 0, y_off: -100_000, width: 100, height: 200_000 };
    let mut a = falling_player(95, 100, 4, 0);
    a.half_w = 8;
    let tiles: Vec<Tile> = Vec::new();
    let r = physics_step(&a, &tiles, &bounds).expect("actor survives");
    // Clamped so that the integrated right edge sits exactly on the bound.
    assert_eq!(r.x + r.half_w, 100);
    assert_eq!(r.vx, 4); // only the position was corrected
}

#[test]
fn coyote_grace_counts_down_and_refreshes_jumps() {
    let mut a = falling_player(0, 0, 0, 0);
    a.coyote_time = 3;
    a.jump_count = 0;
    a.jump_limit = 2;
    let tiles: Vec<Tile> = Vec::new();
    let r = physics_step(&a, &tiles, &wide_bounds()).expect("actor survives");
    assert_eq!(r.coyote_time, 2);
    assert_eq!(r.jump_count, 2); // refreshed while the grace window is open
}

#[test]
fn bookkeeping_on_grounded_actor() {
    let mut a = falling_player(0, 0, 0, 0);
    a.grounded = true;
    a.jump_count = 0;
    a.jump_limit = 3;
    let b = bookkeep_step(&a);
    assert_eq!(b.coyote_time, 4);
    assert_eq!(b.jump_count, 3);
    assert!(!b.grounded);
}

#[test]
fn actor_centred_on_a_tile_is_left_alone() {
    // Overlap with exactly coinciding centres applies no correction on
    // that axis: there is no nearer edge to push towards.
    let a = falling_player(0, 0, 2, 0);
    let tiles = vec![Tile { x: 0, y: 0 }];
    let r = physics_step(&a, &tiles, &wide_bounds()).expect("actor survives");
    assert_eq!(r.vx, 2); // not zeroed
    assert_eq!(r.vy, -1); // just gravity
    assert_eq!((r.x, r.y), (2, -1)); // plain integration
}

#[test]
fn jump_rises_and_lands_back_on_the_floor() {
    let floor = vec![Tile { x: -32, y: -32 }, Tile { x: 0, y: -32 }, Tile { x: 32, y: -32 }];
    let bounds = wide_bounds();
    let mut a = falling_player(0, 0, 0, 0);
    a.grounded = true;
    a.jump_count = 1;
    // Jump off the floor...
    let jump = InputFrame { left: false, right: false, jump_pressed: true, jump_released: false };
    player_move(PlayerSlot::One, &jump, &mut a);
    assert_eq!(a.vy, 14);
    // ...and fall back: within a second the actor rests on the floor again.
    let quiet = InputFrame { left: false, right: false, jump_pressed: false, jump_released: false };
    let mut frame: u32 = 0;
    let mut peak: i64 = 0;
    while frame < 60 {
        player_move(PlayerSlot::One, &quiet, &mut a);
        a = physics_step(&a, &floor, &bounds).expect("actor survives");
        if a.y > peak {
            peak = a.y;
        }
        frame += 1;
    }
    assert!(peak > 50); // it did rise
    assert_eq!(a.y, 0); // and rests on the floor again
    assert!(a.grounded);
    assert_eq!(a.vy, 0);
    assert_eq!(a.jump_count, 1); // refreshed by the landing
}

#[test]
fn last_overlapping_tile_wins() {
    // Two tiles overlap the projected box; each correction is applied
    // immediately, so the later tile determines the final position.
    let a = falling_player(0, 0, 4, 5);
    let tiles = vec![Tile { x: 16, y: 0 }, Tile { x: -16, y: 0 }];
    let r = physics_step(&a, &tiles, &wide_bounds()).expect("actor survives");
    // First push moves the actor to x = -8 (left of the right tile); the
    // left tile then overlaps and pushes it right onto the tile edge.
    assert_eq!(r.x, 8);
    assert_eq!(r.vx, 0);
}
