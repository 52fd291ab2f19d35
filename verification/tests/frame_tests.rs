use pillars_core::actor::{enemy_initial, player_initial};
use pillars_core::camera::camera_target;
use pillars_core::geom::{Aabb, boxes_overlap};
use pillars_core::input::{InputFrame, PlayerSlot, player_move};
use pillars_core::level::{LevelBounds, apply_player_spawn};

fn quiet() -> InputFrame {
    InputFrame { left: false, right: false, jump_pressed: false, jump_released: false }
}

#[test]
fn boxes_touching_along_an_edge_do_not_overlap() {
    let a = Aabb { x: 0, y: 0, hx: 8, hy: 8 };
    let b = Aabb { x: 16, y: 0, hx: 8, hy: 8 };
    assert!(!boxes_overlap(&a, &b));
    let c = Aabb { x: 15, y: 0, hx: 8, hy: 8 };
    assert!(boxes_overlap(&a, &c));
}

#[test]
fn held_directions_set_horizontal_intent() {
    let mut a = player_initial(0, 0);
    player_move(PlayerSlot::One, &InputFrame { right: true, ..quiet() }, &mut a);
    assert_eq!(a.vx, 4);
    player_move(PlayerSlot::One, &InputFrame { left: true, ..quiet() }, &mut a);
    assert_eq!(a.vx, -4);
    player_move(PlayerSlot::One, &quiet(), &mut a);
    assert_eq!(a.vx, 0);
}

#[test]
fn jump_press_spends_a_jump() {
    let mut a = player_initial(0, 0);
    a.jump_count = 1;
    a.coyote_time = 3;
    player_move(PlayerSlot::One, &InputFrame { jump_pressed: true, ..quiet() }, &mut a);
    assert_eq!(a.vy, 14);
    assert!(a.jumped);
    assert_eq!(a.jump_count, 0);
    assert_eq!(a.coyote_time, 0);
}

#[test]
fn releasing_early_cuts_the_ascent() {
    let mut a = player_initial(0, 0);
    a.vy = 14;
    a.jumped = true;
    player_move(PlayerSlot::One, &InputFrame { jump_released: true, ..quiet() }, &mut a);
    assert_eq!(a.vy, 3);
    // A slow ascent is left alone.
    let mut b = player_initial(0, 0);
    b.vy = 2;
    b.jumped = true;
    player_move(PlayerSlot::One, &InputFrame { jump_released: true, ..quiet() }, &mut b);
    assert_eq!(b.vy, 2);
}

#[test]
fn second_slot_needs_grace_and_a_jump() {
    // The second slot jumps only with coyote grace and a jump both left.
    let mut a = player_initial(0, 0);
    a.jump_count = 1;
    a.coyote_time = 0;
    player_move(PlayerSlot::Two, &InputFrame { jump_pressed: true, ..quiet() }, &mut a);
    assert_eq!(a.vy, 0);
    a.coyote_time = 2;
    player_move(PlayerSlot::Two, &InputFrame { jump_pressed: true, ..quiet() }, &mut a);
    assert_eq!(a.vy, 14);
}

#[test]
fn camera_follows_and_clamps() {
    let b = LevelBounds { x_off: 0, y_off: 0, width: 1024, height: 1024 };
    // Comfortably inside: the camera follows, half a screen down.
    assert_eq!(camera_target(512, 500, &b), (512, 244));
    // Pushed against the level edges it is held back.
    assert_eq!(camera_target(100, 800, &b), (256, 256));
    assert_eq!(camera_target(1000, -100, &b), (768, 0));
}

#[test]
fn spawn_point_overrides_only_flagged_axes() {
    let (x, y) = apply_player_spawn(5, 6, 100, 200, true, false, 10, 20);
    assert_eq!((x, y), (110, 6));
    let (x2, y2) = apply_player_spawn(5, 6, 100, 200, false, true, 10, 20);
    assert_eq!((x2, y2), (5, 220));
}

#[test]
fn initial_actors_match_their_spawn_state() {
    let p = player_initial(3, 4);
    assert_eq!((p.x, p.y), (3, 4));
    assert_eq!((p.vx, p.vy), (0, 0));
    assert_eq!(p.jump_limit, 1);
    assert_eq!(p.jump_count, 0);
    assert!(!p.grounded);
    let e = enemy_initial(7, 8);
    assert_eq!((e.half_w, e.half_h), (16, 16));
    assert_eq!(e.jump_limit, 0);
}
