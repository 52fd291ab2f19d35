use vstd::prelude::*;
use crate::actor::Actor;
use crate::geom::{Aabb, overlaps, boxes_overlap, half_ok, vel_ok, TILE_HALF};
use crate::level::{LevelBounds, Tile, tiles_wf};

verus! {

/// Frames of grace left for jumping right after the ground is lost.
pub const COYOTE_GRACE: u8 = 5;

/// Gravity stops accelerating an actor once it falls this fast.
pub const TERMINAL_FALL: i64 = -12;

/// Bound on a position coordinate part-way through a physics step: a tile
/// correction or a bounds clamp can push a well-formed position somewhat
/// past `POS_LIMIT`, but never past this.
pub const PASS_LIMIT: i64 = 4_000_000_000;

/// Ground-state bookkeeping, run before any movement. A grounded actor gets
/// its full coyote grace and all its jumps back; an airborne one inside the
/// grace window keeps its jumps refreshed; once the grace has run out, an
/// untouched set of jumps loses one (the jump spent by walking off a ledge).
/// `grounded` is then cleared for the frame (vertical collision will
/// re-assert it) and the grace counter ticks down.
pub open spec fn ground_bookkeep(a: Actor) -> Actor {
    let a1 = if a.grounded {
        Actor { coyote_time: COYOTE_GRACE, jump_count: a.jump_limit, ..a }
    } else if a.coyote_time > 0 {
        Actor { jump_count: a.jump_limit, ..a }
    } else if a.jump_count == a.jump_limit && a.jump_count != 0 {
        Actor { jump_count: (a.jump_limit - 1) as u8, ..a }
    } else {
        a
    };
    let a2 = Actor { grounded: false, ..a1 };
    if a2.coyote_time > 0 {
        Actor { coyote_time: (a2.coyote_time - 1) as u8, ..a2 }
    } else {
        a2
    }
}

/// One frame of gravity: fall one unit per frame faster, down to the
/// terminal velocity.
pub open spec fn apply_gravity(a: Actor) -> Actor {
    if a.vy > TERMINAL_FALL {
        Actor { vy: (a.vy - 1) as i64, ..a }
    } else {
        a
    }
}

/// The actor's box shifted by its pending horizontal velocity.
pub open spec fn h_box(a: Actor) -> Aabb {
    Aabb { x: (a.x + a.vx) as i64, y: a.y, hx: a.half_w, hy: a.half_h }
}

/// The actor's box shifted by its pending vertical velocity.
pub open spec fn v_box(a: Actor) -> Aabb {
    Aabb { x: a.x, y: (a.y + a.vy) as i64, hx: a.half_w, hy: a.half_h }
}

/// Horizontal resolution against one tile: if the box shifted by the pending
/// horizontal velocity overlaps the tile, the actor is pushed out along x to
/// the nearer tile edge and its horizontal velocity is zeroed. An actor
/// whose centre sits exactly on the tile centre is left alone.
pub open spec fn h_resolve_one(a: Actor, t: Tile) -> Actor {
    if overlaps(h_box(a), t.tile_box()) {
        if a.x > t.x {
            Actor { x: (t.x + TILE_HALF + a.half_w) as i64, vx: 0, ..a }
        } else if a.x < t.x {
            Actor { x: (t.x - TILE_HALF - a.half_w) as i64, vx: 0, ..a }
        } else {
            a
        }
    } else {
        a
    }
}

/// Vertical resolution against one tile: as the horizontal case, but a
/// downward resolution (actor above the tile) also grounds the actor and
/// clears its jumped flag.
pub open spec fn v_resolve_one(a: Actor, t: Tile) -> Actor {
    if overlaps(v_box(a), t.tile_box()) {
        if a.y > t.y {
            Actor {
                y: (t.y + TILE_HALF + a.half_h) as i64,
                vy: 0,
                grounded: true,
                jumped: false,
                ..a
            }
        } else if a.y < t.y {
            Actor { y: (t.y - TILE_HALF - a.half_h) as i64, vy: 0, ..a }
        } else {
            a
        }
    } else {
        a
    }
}

/// The horizontal pass: every tile is tested in order and each correction is
/// applied immediately, so a later overlapping tile wins over an earlier one.
pub open spec fn h_pass(a: Actor, ts: Seq<Tile>) -> Actor
    decreases ts.len(),
{
    if ts.len() == 0 {
        a
    } else {
        h_resolve_one(h_pass(a, ts.drop_last()), ts.last())
    }
}

/// The vertical pass, in the same order with the same last-tile-wins rule.
pub open spec fn v_pass(a: Actor, ts: Seq<Tile>) -> Actor
    decreases ts.len(),
{
    if ts.len() == 0 {
        a
    } else {
        v_resolve_one(v_pass(a, ts.drop_last()), ts.last())
    }
}

/// The level-bound clamp: if the projected right or left edge would leave
/// the level's horizontal extent, the position is corrected so that the edge
/// lands exactly on the boundary after integration. Velocity is kept, so it
/// can be reapplied next frame.
pub open spec fn clamp_x(a: Actor, b: LevelBounds) -> Actor {
    let a1 = if a.x + a.vx + a.half_w > b.x_off + b.width {
        Actor { x: (b.x_off + b.width - a.vx - a.half_w) as i64, ..a }
    } else {
        a
    };
    if a1.x + a1.vx - a1.half_w < b.x_off {
        Actor { x: (b.x_off - a1.vx + a1.half_w) as i64, ..a1 }
    } else {
        a1
    }
}

/// An actor whose projected bottom edge falls below the level's lower bound
/// has fallen off the world.
pub open spec fn fell_below(a: Actor, b: LevelBounds) -> bool {
    a.y + a.vy - a.half_h < b.y_off
}

/// Apply the (possibly corrected) velocity to the position.
pub open spec fn integrate(a: Actor) -> Actor {
    Actor { x: (a.x + a.vx) as i64, y: (a.y + a.vy) as i64, ..a }
}

/// One whole physics step for one actor: bookkeeping, gravity, the
/// horizontal pass, the vertical pass, the bound clamp, then either removal
/// (fell off the world) or integration.
pub open spec fn step_spec(a: Actor, ts: Seq<Tile>, b: LevelBounds) -> Option<Actor> {
    let moved = clamp_x(v_pass(h_pass(apply_gravity(ground_bookkeep(a)), ts), ts), b);
    if fell_below(moved, b) {
        None
    } else {
        Some(integrate(moved))
    }
}

/// Executable ground-state bookkeeping.
pub fn bookkeep_step(a: &Actor) -> (r: Actor)
    ensures
        r == ground_bookkeep(*a),
{
    let mut r = *a;
    if r.grounded {
        r.coyote_time = COYOTE_GRACE;
        r.jump_count = r.jump_limit;
    } else if r.coyote_time > 0 {
        r.jump_count = r.jump_limit;
    } else if r.jump_count == r.jump_limit && r.jump_count != 0 {
        r.jump_count = r.jump_limit - 1;
    }
    r.grounded = false;
    if r.coyote_time > 0 {
        r.coyote_time = r.coyote_time - 1;
    }
    r
}

/// Executable gravity.
pub fn gravity_step(a: &Actor) -> (r: Actor)
    requires
        vel_ok(a.vy as int),
    ensures
        r == apply_gravity(*a),
{
    let mut r = *a;
    if r.vy > TERMINAL_FALL {
        r.vy = r.vy - 1;
    }
    r
}

/// Executable horizontal resolution against one tile.
pub fn h_resolve_step(a: &Actor, t: &Tile) -> (r: Actor)
    requires
        t.wf(),
        half_ok(a.half_w as int),
        half_ok(a.half_h as int),
        vel_ok(a.vx as int),
        vel_ok(a.vy as int),
        -PASS_LIMIT <= a.x <= PASS_LIMIT,
        -PASS_LIMIT <= a.y <= PASS_LIMIT,
    ensures
        r == h_resolve_one(*a, *t),
        -PASS_LIMIT <= r.x <= PASS_LIMIT,
        r.y == a.y,
        vel_ok(r.vx as int),
{
    let tb = Aabb { x: t.x, y: t.y, hx: TILE_HALF, hy: TILE_HALF };
    let ab = Aabb { x: a.x + a.vx, y: a.y, hx: a.half_w, hy: a.half_h };
    let mut r = *a;
    if boxes_overlap(&ab, &tb) {
        if a.x > t.x {
            r.x = t.x + TILE_HALF + a.half_w;
            r.vx = 0;
        } else if a.x < t.x {
            r.x = t.x - TILE_HALF - a.half_w;
            r.vx = 0;
        }
    }
    r
}

/// Executable vertical resolution against one tile.
pub fn v_resolve_step(a: &Actor, t: &Tile) -> (r: Actor)
    requires
        t.wf(),
        half_ok(a.half_w as int),
        half_ok(a.half_h as int),
        vel_ok(a.vx as int),
        vel_ok(a.vy as int),
        -PASS_LIMIT <= a.x <= PASS_LIMIT,
        -PASS_LIMIT <= a.y <= PASS_LIMIT,
    ensures
        r == v_resolve_one(*a, *t),
        -PASS_LIMIT <= r.y <= PASS_LIMIT,
        r.x == a.x,
        vel_ok(r.vy as int),
{
    let tb = Aabb { x: t.x, y: t.y, hx: TILE_HALF, hy: TILE_HALF };
    let ab = Aabb { x: a.x, y: a.y + a.vy, hx: a.half_w, hy: a.half_h };
    let mut r = *a;
    if boxes_overlap(&ab, &tb) {
        if a.y > t.y {
            r.y = t.y + TILE_HALF + a.half_h;
            r.vy = 0;
            r.grounded = true;
            r.jumped = false;
        } else if a.y < t.y {
            r.y = t.y - TILE_HALF - a.half_h;
            r.vy = 0;
        }
    }
    r
}

/// Executable level-bound clamp.
pub fn clamp_step(a: &Actor, b: &LevelBounds) -> (r: Actor)
    requires
        b.wf(),
        half_ok(a.half_w as int),
        half_ok(a.half_h as int),
        vel_ok(a.vx as int),
        vel_ok(a.vy as int),
        -PASS_LIMIT <= a.x <= PASS_LIMIT,
        -PASS_LIMIT <= a.y <= PASS_LIMIT,
    ensures
        r == clamp_x(*a, *b),
        -PASS_LIMIT <= r.x <= PASS_LIMIT,
        r.y == a.y,
{
    let mut r = *a;
    if r.x + r.vx + r.half_w > b.x_off + b.width {
        r.x = b.x_off + b.width - r.vx - r.half_w;
    }
    if r.x + r.vx - r.half_w < b.x_off {
        r.x = b.x_off - r.vx + r.half_w;
    }
    r
}

/// One physics step for one actor against the level's solid tiles and
/// bounds. Returns the updated actor, or `None` when the actor fell below
/// the level's lower bound and is removed.
pub fn physics_step(a: &Actor, tiles: &Vec<Tile>, bounds: &LevelBounds) -> (r: Option<Actor>)
    requires
        a.wf(),
        tiles_wf(tiles@),
        bounds.wf(),
    ensures
        r == step_spec(*a, tiles@, *bounds),
        (a.jump_count <= a.jump_limit || a.grounded || a.coyote_time > 0) ==> (r matches Some(ra)
            ==> ra.jump_count <= ra.jump_limit),
{
    let mut cur = bookkeep_step(a);
    cur = gravity_step(&cur);
    let ghost a1 = apply_gravity(ground_bookkeep(*a));
    assert(cur == a1);

    let mut i: usize = 0;
    while i < tiles.len()
        invariant
            0 <= i <= tiles@.len(),
            tiles_wf(tiles@),
            cur == h_pass(a1, tiles@.take(i as int)),
            half_ok(cur.half_w as int),
            half_ok(cur.half_h as int),
            vel_ok(cur.vx as int),
            vel_ok(cur.vy as int),
            -PASS_LIMIT <= cur.x <= PASS_LIMIT,
            -PASS_LIMIT <= cur.y <= PASS_LIMIT,
        decreases tiles@.len() - i,
    {
        proof {
            assert(tiles@.take(i + 1 as int).drop_last() =~= tiles@.take(i as int));
            assert(tiles@.take(i + 1 as int).last() == tiles@[i as int]);
        }
        cur = h_resolve_step(&cur, &tiles[i]);
        i += 1;
    }
    proof {
        assert(tiles@.take(tiles@.len() as int) =~= tiles@);
    }
    let ghost ah = h_pass(a1, tiles@);
    assert(cur == ah);

    i = 0;
    while i < tiles.len()
        invariant
            0 <= i <= tiles@.len(),
            tiles_wf(tiles@),
            cur == v_pass(ah, tiles@.take(i as int)),
            half_ok(cur.half_w as int),
            half_ok(cur.half_h as int),
            vel_ok(cur.vx as int),
            vel_ok(cur.vy as int),
            -PASS_LIMIT <= cur.x <= PASS_LIMIT,
            -PASS_LIMIT <= cur.y <= PASS_LIMIT,
        decreases tiles@.len() - i,
    {
        proof {
            assert(tiles@.take(i + 1 as int).drop_last() =~= tiles@.take(i as int));
            assert(tiles@.take(i + 1 as int).last() == tiles@[i as int]);
        }
        cur = v_resolve_step(&cur, &tiles[i]);
        i += 1;
    }
    proof {
        assert(tiles@.take(tiles@.len() as int) =~= tiles@);
    }
    assert(cur == v_pass(ah, tiles@));

    cur = clamp_step(&cur, bounds);
    proof {
        if a.jump_count <= a.jump_limit || a.grounded || a.coyote_time > 0 {
            lemma_h_pass_keeps_state(a1, tiles@);
            lemma_v_pass_keeps_axes(ah, tiles@);
        }
    }
    if cur.y + cur.vy - cur.half_h < bounds.y_off {
        None
    } else {
        let moved = Actor { x: cur.x + cur.vx, y: cur.y + cur.vy, ..cur };
        Some(moved)
    }
}

/// The horizontal pass never touches the vertical axis nor the jump state:
/// `y`, the vertical velocity, the grounded and jumped flags, the coyote
/// counter, the jump counters and the box extents all come out unchanged.
pub proof fn lemma_h_pass_keeps_state(a: Actor, ts: Seq<Tile>)
    ensures
        h_pass(a, ts).y == a.y,
        h_pass(a, ts).vy == a.vy,
        h_pass(a, ts).grounded == a.grounded,
        h_pass(a, ts).jumped == a.jumped,
        h_pass(a, ts).coyote_time == a.coyote_time,
        h_pass(a, ts).jump_count == a.jump_count,
        h_pass(a, ts).jump_limit == a.jump_limit,
        h_pass(a, ts).half_w == a.half_w,
        h_pass(a, ts).half_h == a.half_h,
    decreases ts.len(),
{
    if ts.len() > 0 {
        lemma_h_pass_keeps_state(a, ts.drop_last());
    }
}

/// Splitting a tile list splits the horizontal pass: resolving against the
/// concatenation is resolving against the first part, then the second.
pub proof fn lemma_h_pass_split(a: Actor, s: Seq<Tile>, t: Seq<Tile>)
    ensures
        h_pass(a, s + t) == h_pass(h_pass(a, s), t),
    decreases t.len(),
{
    if t.len() == 0 {
        assert(s + t =~= s);
    } else {
        lemma_h_pass_split(a, s, t.drop_last());
        assert((s + t).drop_last() =~= s + t.drop_last());
        assert((s + t).last() == t.last());
    }
}

/// Splitting a tile list splits the vertical pass in the same way.
pub proof fn lemma_v_pass_split(a: Actor, s: Seq<Tile>, t: Seq<Tile>)
    ensures
        v_pass(a, s + t) == v_pass(v_pass(a, s), t),
    decreases t.len(),
{
    if t.len() == 0 {
        assert(s + t =~= s);
    } else {
        lemma_v_pass_split(a, s, t.drop_last());
        assert((s + t).drop_last() =~= s + t.drop_last());
        assert((s + t).last() == t.last());
    }
}

/// Once the horizontal pass has zeroed the horizontal velocity, no later
/// tile of the same pass brings it back.
pub proof fn lemma_h_pass_keeps_vx_zero(a: Actor, ts: Seq<Tile>)
    requires
        a.vx == 0,
    ensures
        h_pass(a, ts).vx == 0,
    decreases ts.len(),
{
    if ts.len() > 0 {
        lemma_h_pass_keeps_vx_zero(a, ts.drop_last());
    }
}

/// A grounded landing survives the rest of the vertical pass: once an actor
/// is grounded with zero vertical velocity and a cleared jumped flag, every
/// later tile of the pass leaves all three alone.
pub proof fn lemma_v_pass_keeps_landing(a: Actor, ts: Seq<Tile>)
    requires
        a.grounded,
        !a.jumped,
        a.vy == 0,
    ensures
        v_pass(a, ts).grounded,
        !v_pass(a, ts).jumped,
        v_pass(a, ts).vy == 0,
    decreases ts.len(),
{
    if ts.len() > 0 {
        lemma_v_pass_keeps_landing(a, ts.drop_last());
    }
}

/// Does horizontal resolution against this tile actually correct the actor?
pub open spec fn h_corrects(a: Actor, t: Tile) -> bool {
    overlaps(h_box(a), t.tile_box()) && a.x != t.x
}

/// Did the actor land on this tile from above: its velocity-shifted box
/// overlaps the tile, its centre is above the tile's, and it is moving down.
pub open spec fn lands_from_above(a: Actor, t: Tile) -> bool {
    overlaps(v_box(a), t.tile_box()) && a.y > t.y && a.vy < 0
}

/// Horizontal tile collision zeroes the horizontal velocity and leaves the
/// vertical axis untouched: if any tile of the pass corrects the actor, the
/// pass ends with zero horizontal velocity, while `y` and the vertical
/// velocity keep their incoming values whatever happens.
pub proof fn lemma_h_collision_zeroes_vx(a: Actor, ts: Seq<Tile>, i: int)
    requires
        0 <= i < ts.len(),
        h_corrects(h_pass(a, ts.take(i)), ts[i]),
    ensures
        h_pass(a, ts).vx == 0,
        h_pass(a, ts).y == a.y,
        h_pass(a, ts).vy == a.vy,
{
    lemma_h_pass_keeps_state(a, ts);
    assert(ts.take(i + 1).drop_last() =~= ts.take(i));
    assert(ts.take(i + 1).last() == ts[i]);
    let mid = h_pass(a, ts.take(i + 1));
    assert(mid.vx == 0);
    lemma_h_pass_keeps_vx_zero(mid, ts.skip(i + 1));
    assert(ts.take(i + 1) + ts.skip(i + 1) =~= ts);
    lemma_h_pass_split(a, ts.take(i + 1), ts.skip(i + 1));
}

/// Landing on a solid tile from above sets `grounded`, clears `jumped` and
/// zeroes the vertical velocity within the same step, and the horizontal
/// axis comes through the vertical pass untouched.
pub proof fn lemma_landing_grounds(a: Actor, ts: Seq<Tile>, i: int)
    requires
        0 <= i < ts.len(),
        lands_from_above(v_pass(a, ts.take(i)), ts[i]),
    ensures
        v_pass(a, ts).grounded,
        !v_pass(a, ts).jumped,
        v_pass(a, ts).vy == 0,
        v_pass(a, ts).x == a.x,
        v_pass(a, ts).vx == a.vx,
{
    lemma_v_pass_keeps_axes(a, ts);
    assert(ts.take(i + 1).drop_last() =~= ts.take(i));
    assert(ts.take(i + 1).last() == ts[i]);
    let mid = v_pass(a, ts.take(i + 1));
    assert(mid.grounded && !mid.jumped && mid.vy == 0);
    lemma_v_pass_keeps_landing(mid, ts.skip(i + 1));
    assert(ts.take(i + 1) + ts.skip(i + 1) =~= ts);
    lemma_v_pass_split(a, ts.take(i + 1), ts.skip(i + 1));
}

/// The landing law lifted to the whole step: if the vertical pass of a
/// step lands the actor on some tile from above, a surviving actor leaves
/// the step grounded, with its jumped flag cleared and no vertical
/// velocity.
pub proof fn lemma_step_landing(a: Actor, ts: Seq<Tile>, b: LevelBounds, i: int)
    requires
        0 <= i < ts.len(),
        lands_from_above(
            v_pass(h_pass(apply_gravity(ground_bookkeep(a)), ts), ts.take(i)),
            ts[i],
        ),
    ensures
        step_spec(a, ts, b) matches Some(r) ==> r.grounded && !r.jumped && r.vy == 0,
{
    lemma_landing_grounds(h_pass(apply_gravity(ground_bookkeep(a)), ts), ts, i);
}

/// The horizontal-collision law lifted to the whole step: if the
/// horizontal pass of a step corrects the actor against some tile, a
/// surviving actor leaves the step with no horizontal velocity.
pub proof fn lemma_step_h_collision(a: Actor, ts: Seq<Tile>, b: LevelBounds, i: int)
    requires
        0 <= i < ts.len(),
        h_corrects(h_pass(apply_gravity(ground_bookkeep(a)), ts.take(i)), ts[i]),
    ensures
        step_spec(a, ts, b) matches Some(r) ==> r.vx == 0,
{
    lemma_h_collision_zeroes_vx(apply_gravity(ground_bookkeep(a)), ts, i);
    lemma_v_pass_keeps_axes(h_pass(apply_gravity(ground_bookkeep(a)), ts), ts);
}

/// After one physics step a surviving actor never holds more jumps than its
/// limit, provided it entered the step with that bound intact, or with the
/// ground or some coyote grace still available to restore it.
pub proof fn lemma_jump_count_within_limit(a: Actor, ts: Seq<Tile>, b: LevelBounds)
    requires
        a.jump_count <= a.jump_limit || a.grounded || a.coyote_time > 0,
    ensures
        step_spec(a, ts, b) matches Some(r) ==> r.jump_count <= r.jump_limit,
{
    let a1 = apply_gravity(ground_bookkeep(a));
    assert(a1.jump_count <= a1.jump_limit);
    lemma_h_pass_keeps_state(a1, ts);
    lemma_v_pass_keeps_axes(h_pass(a1, ts), ts);
}

/// An actor that is airborne with its coyote grace spent and its jumps
/// untouched loses exactly one jump on the next step: the jump consumed by
/// walking off a ledge.
pub proof fn lemma_ledge_fall_consumes_one_jump(a: Actor, ts: Seq<Tile>, b: LevelBounds)
    requires
        !a.grounded,
        a.coyote_time == 0,
        a.jump_count == a.jump_limit,
        a.jump_count > 0,
    ensures
        step_spec(a, ts, b) matches Some(r) ==> r.jump_count == a.jump_limit - 1,
{
    let a1 = apply_gravity(ground_bookkeep(a));
    lemma_h_pass_keeps_state(a1, ts);
    lemma_v_pass_keeps_axes(h_pass(a1, ts), ts);
}

/// The consumed ledge jump cannot be regained while the actor stays
/// airborne with no coyote grace: a step leaves a deficit in the jump count
/// exactly as it found it.
pub proof fn lemma_no_jump_regained_while_airborne(a: Actor, ts: Seq<Tile>, b: LevelBounds)
    requires
        !a.grounded,
        a.coyote_time == 0,
        a.jump_count < a.jump_limit,
    ensures
        step_spec(a, ts, b) matches Some(r) ==> r.jump_count == a.jump_count,
{
    let a1 = apply_gravity(ground_bookkeep(a));
    lemma_h_pass_keeps_state(a1, ts);
    lemma_v_pass_keeps_axes(h_pass(a1, ts), ts);
}

/// An actor is removed by a step exactly when its projected bottom edge,
/// after the collision passes and the horizontal clamp, lies below the
/// level's lower bound.
pub proof fn lemma_fallen_actor_removed(a: Actor, ts: Seq<Tile>, b: LevelBounds)
    ensures
        step_spec(a, ts, b) is None <==> fell_below(
            clamp_x(v_pass(h_pass(apply_gravity(ground_bookkeep(a)), ts), ts), b),
            b,
        ),
{
}

/// The vertical pass never touches the horizontal axis nor the jump
/// counters: `x`, the horizontal velocity, the coyote counter, the jump
/// counters and the box extents all come out unchanged.
pub proof fn lemma_v_pass_keeps_axes(a: Actor, ts: Seq<Tile>)
    ensures
        v_pass(a, ts).x == a.x,
        v_pass(a, ts).vx == a.vx,
        v_pass(a, ts).coyote_time == a.coyote_time,
        v_pass(a, ts).jump_count == a.jump_count,
        v_pass(a, ts).jump_limit == a.jump_limit,
        v_pass(a, ts).half_w == a.half_w,
        v_pass(a, ts).half_h == a.half_h,
    decreases ts.len(),
{
    if ts.len() > 0 {
        lemma_v_pass_keeps_axes(a, ts.drop_last());
    }
}

} // verus!
