use vstd::prelude::*;
use crate::actor::{Actor, ENEMY_HALF, JUMP_SPEED, PLAYER_HALF_H, PLAYER_HALF_W};
use crate::geom::{Aabb, boxes_overlap, coord_ok, overlaps, vel_ok};

verus! {

/// Half the side of a totem's 32 by 32 box.
pub const TOTEM_HALF: i64 = 16;

/// Which way a fixed hazard points; the direction decides the size and the
/// placement of its deadly region within its tile.
#[derive(Clone, Copy, PartialEq, Eq, Structural, Debug)]
pub enum Direction {
    North,
    South,
    East,
    West,
}

/// A fixed deadly region (spikes and the like), anchored at the corner of
/// the tile that carries it.
#[derive(Clone, Copy, PartialEq, Eq, Structural, Debug)]
pub struct Killer {
    pub x: i64,
    pub y: i64,
    pub dir: Direction,
}

impl Killer {
    pub open spec fn wf(self) -> bool {
        coord_ok(self.x as int) && coord_ok(self.y as int)
    }

    /// The hazard's hitbox: a 32 by 14 strip along the deadly edge of its
    /// tile, or 14 by 32 for the sideways directions.
    pub open spec fn killer_box(self) -> Aabb {
        match self.dir {
            Direction::North => Aabb { x: (self.x + 16) as i64, y: (self.y + 7) as i64, hx: 16, hy: 7 },
            Direction::South => Aabb { x: (self.x + 16) as i64, y: (self.y + 21) as i64, hx: 16, hy: 7 },
            Direction::East => Aabb { x: (self.x + 7) as i64, y: (self.y + 16) as i64, hx: 7, hy: 16 },
            Direction::West => Aabb { x: (self.x + 21) as i64, y: (self.y + 16) as i64, hx: 7, hy: 16 },
        }
    }
}

pub open spec fn killers_wf(ks: Seq<Killer>) -> bool {
    forall|i: int| 0 <= i < ks.len() ==> (#[trigger] ks[i]).wf()
}

/// An elemental totem; picking up an Air totem grants an extra jump.
#[derive(Clone, Copy, PartialEq, Eq, Structural, Debug)]
pub enum TotemType {
    Fire,
    Earth,
    Water,
    Air,
}

/// A collectible totem. Like a coin it is destroyed by clearing its flag,
/// so destroying it twice is a no-op.
#[derive(Clone, Copy, PartialEq, Eq, Structural, Debug)]
pub struct Totem {
    pub x: i64,
    pub y: i64,
    pub kind: TotemType,
    pub alive: bool,
}

impl Totem {
    pub open spec fn wf(self) -> bool {
        coord_ok(self.x as int) && coord_ok(self.y as int)
    }

    pub open spec fn totem_box(self) -> Aabb {
        Aabb { x: self.x, y: self.y, hx: TOTEM_HALF, hy: TOTEM_HALF }
    }
}

pub open spec fn totems_wf(ts: Seq<Totem>) -> bool {
    forall|i: int| 0 <= i < ts.len() ==> (#[trigger] ts[i]).wf()
}

/// A walking enemy: its hitbox is a fixed 32 by 32 square; an intangible
/// one cannot be stomped. The movement range is kept from the level data,
/// though no system drives it yet.
#[derive(Clone, Copy, PartialEq, Eq, Structural, Debug)]
pub struct Enemy {
    pub x: i64,
    pub y: i64,
    pub move_x: i64,
    pub move_y: i64,
    pub tangible: bool,
    pub smart: bool,
    pub alive: bool,
}

impl Enemy {
    pub open spec fn wf(self) -> bool {
        coord_ok(self.x as int) && coord_ok(self.y as int)
    }

    pub open spec fn enemy_box(self) -> Aabb {
        Aabb { x: self.x, y: self.y, hx: ENEMY_HALF, hy: ENEMY_HALF }
    }
}

pub open spec fn enemies_wf(es: Seq<Enemy>) -> bool {
    forall|i: int| 0 <= i < es.len() ==> (#[trigger] es[i]).wf()
}

/// The player's box translated by its whole pending velocity: hazard
/// checks look one frame ahead so a fast player cannot pass through them.
pub open spec fn look_box(px: i64, py: i64, vx: i64, vy: i64) -> Aabb {
    Aabb {
        x: (px + vx) as i64,
        y: (py + vy) as i64,
        hx: PLAYER_HALF_W,
        hy: PLAYER_HALF_H,
    }
}

/// The player's box translated by its pending vertical velocity only.
pub open spec fn player_vbox(p: Actor) -> Aabb {
    Aabb { x: p.x, y: (p.y + p.vy) as i64, hx: PLAYER_HALF_W, hy: PLAYER_HALF_H }
}

/// The player's box translated by its pending horizontal velocity only.
pub open spec fn player_hbox(p: Actor) -> Aabb {
    Aabb { x: (p.x + p.vx) as i64, y: p.y, hx: PLAYER_HALF_W, hy: PLAYER_HALF_H }
}

/// Does the velocity-projected player box touch any hazard's hitbox? The
/// caller destroys the player on a true result.
pub fn killer_scan(px: i64, py: i64, vx: i64, vy: i64, killers: &Vec<Killer>) -> (dies: bool)
    requires
        coord_ok(px as int),
        coord_ok(py as int),
        vel_ok(vx as int),
        vel_ok(vy as int),
        killers_wf(killers@),
    ensures
        dies == exists|i: int|
            0 <= i < killers@.len() && overlaps(
                look_box(px, py, vx, vy),
                (#[trigger] killers@[i]).killer_box(),
            ),
{
    let pb = Aabb { x: px + vx, y: py + vy, hx: PLAYER_HALF_W, hy: PLAYER_HALF_H };
    let mut found = false;
    let mut i: usize = 0;
    while i < killers.len()
        invariant
            0 <= i <= killers@.len(),
            killers_wf(killers@),
            coord_ok(px as int),
            coord_ok(py as int),
            vel_ok(vx as int),
            vel_ok(vy as int),
            pb == look_box(px, py, vx, vy),
            found == exists|k: int|
                0 <= k < i && overlaps(
                    look_box(px, py, vx, vy),
                    (#[trigger] killers@[k]).killer_box(),
                ),
        decreases killers@.len() - i,
    {
        let k = killers[i];
        proof {
            assert(k == killers@[i as int]);
            assert(killers@[i as int].wf());
        }
        let kb = match k.dir {
            Direction::North => Aabb { x: k.x + 16, y: k.y + 7, hx: 16, hy: 7 },
            Direction::South => Aabb { x: k.x + 16, y: k.y + 21, hx: 16, hy: 7 },
            Direction::East => Aabb { x: k.x + 7, y: k.y + 16, hx: 7, hy: 16 },
            Direction::West => Aabb { x: k.x + 21, y: k.y + 16, hx: 7, hy: 16 },
        };
        if boxes_overlap(&pb, &kb) {
            found = true;
        }
        i += 1;
    }
    found
}

/// Is this totem picked up by the projected player box?
pub open spec fn totem_hit(t: Totem, lb: Aabb) -> bool {
    t.alive && overlaps(lb, t.totem_box())
}

/// How many live Air totems the projected player box is picking up.
pub open spec fn air_hits(ts: Seq<Totem>, lb: Aabb) -> int
    decreases ts.len(),
{
    if ts.len() == 0 {
        0
    } else {
        air_hits(ts.drop_last(), lb) + if totem_hit(ts.last(), lb) && ts.last().kind
            == TotemType::Air {
            1int
        } else {
            0int
        }
    }
}

/// The Air pick-up count never exceeds the number of totems.
pub proof fn lemma_air_hits_le(ts: Seq<Totem>, lb: Aabb)
    ensures
        0 <= air_hits(ts, lb) <= ts.len(),
    decreases ts.len(),
{
    if ts.len() > 0 {
        lemma_air_hits_le(ts.drop_last(), lb);
    }
}

/// The Air pick-up count adds up over a split of the totem list.
pub proof fn lemma_air_hits_split(s: Seq<Totem>, t: Seq<Totem>, lb: Aabb)
    ensures
        air_hits(s + t, lb) == air_hits(s, lb) + air_hits(t, lb),
    decreases t.len(),
{
    if t.len() == 0 {
        assert(s + t =~= s);
    } else {
        lemma_air_hits_split(s, t.drop_last(), lb);
        assert((s + t).drop_last() =~= s + t.drop_last());
        assert((s + t).last() == t.last());
    }
}

/// Pick up every totem the velocity-projected player box overlaps: each
/// one is destroyed whatever its element, and each live Air totem raises
/// the player's jump limit by one.
pub fn totem_scan(px: i64, py: i64, vx: i64, vy: i64, a: &mut Actor, totems: &mut Vec<Totem>)
    requires
        coord_ok(px as int),
        coord_ok(py as int),
        vel_ok(vx as int),
        vel_ok(vy as int),
        totems_wf(old(totems)@),
        old(a).jump_limit + air_hits(old(totems)@, look_box(px, py, vx, vy)) <= 255,
    ensures
        final(totems)@.len() == old(totems)@.len(),
        forall|j: int|
            0 <= j < old(totems)@.len() ==> final(totems)@[j] == (Totem {
                alive: old(totems)@[j].alive && !overlaps(
                    look_box(px, py, vx, vy),
                    (#[trigger] old(totems)@[j]).totem_box(),
                ),
                ..old(totems)@[j]
            }),
        *final(a) == (Actor {
            jump_limit: (old(a).jump_limit + air_hits(old(totems)@, look_box(px, py, vx, vy))) as u8,
            ..*old(a)
        }),
{
    let pb = Aabb { x: px + vx, y: py + vy, hx: PLAYER_HALF_W, hy: PLAYER_HALF_H };
    let ghost lb = look_box(px, py, vx, vy);
    let ghost all = old(totems)@;
    let mut i: usize = 0;
    while i < totems.len()
        invariant
            0 <= i <= totems@.len(),
            totems@.len() == all.len(),
            all == old(totems)@,
            totems_wf(all),
            coord_ok(px as int),
            coord_ok(py as int),
            vel_ok(vx as int),
            vel_ok(vy as int),
            pb == lb,
            lb == look_box(px, py, vx, vy),
            old(a).jump_limit + air_hits(all, lb) <= 255,
            a.jump_limit == old(a).jump_limit + air_hits(all.take(i as int), lb),
            a.x == old(a).x && a.y == old(a).y && a.vx == old(a).vx && a.vy == old(a).vy
                && a.half_w == old(a).half_w && a.half_h == old(a).half_h && a.grounded == old(
                a,
            ).grounded && a.jumped == old(a).jumped && a.coyote_time == old(a).coyote_time
                && a.jump_count == old(a).jump_count,
            forall|j: int|
                0 <= j < i ==> totems@[j] == (Totem {
                    alive: all[j].alive && !overlaps(lb, (#[trigger] all[j]).totem_box()),
                    ..all[j]
                }),
            forall|j: int| i <= j < all.len() ==> totems@[j] == #[trigger] all[j],
        decreases totems@.len() - i,
    {
        proof {
            assert(all.take(i + 1 as int).drop_last() =~= all.take(i as int));
            assert(all.take(i + 1 as int).last() == all[i as int]);
            lemma_air_hits_split(all.take(i + 1 as int), all.skip(i + 1 as int), lb);
            assert(all.take(i + 1 as int) + all.skip(i + 1 as int) =~= all);
            lemma_air_hits_le(all.skip(i + 1 as int), lb);
        }
        let t = totems[i];
        proof {
            assert(t == all[i as int]);
            assert(all[i as int].wf());
        }
        let tb = Aabb { x: t.x, y: t.y, hx: TOTEM_HALF, hy: TOTEM_HALF };
        if t.alive && boxes_overlap(&pb, &tb) {
            match t.kind {
                TotemType::Air => {
                    a.jump_limit = a.jump_limit + 1;
                },
                _ => {},
            }
            totems[i] = Totem { alive: false, ..t };
        }
        i += 1;
    }
    proof {
        assert(all.take(all.len() as int) =~= all);
    }
}

/// The stomp condition: the enemy is live and tangible, the vertically
/// projected player box overlaps it, the player is moving down and the
/// player's bottom edge is at or above the enemy's top edge.
pub open spec fn stomp_cond(p: Actor, e: Enemy) -> bool {
    &&& e.alive
    &&& overlaps(player_vbox(p), e.enemy_box())
    &&& p.vy < 0
    &&& p.y - PLAYER_HALF_H >= e.y + ENEMY_HALF
    &&& e.tangible
}

/// The reaction to one enemy. A stomp bounces the player up, clears its
/// jumped flag, refreshes its jump availability — the count is restored
/// to the limit, so the invariant `jump_count <= jump_limit` survives —
/// and destroys the enemy; any other overlap of the vertically projected
/// box destroys the player. The horizontally projected box is then tested
/// as well and destroys the player on contact, even against an enemy
/// stomped this very frame, whose removal is only committed after the scan.
pub open spec fn enemy_react_one(p: Actor, alive: bool, e: Enemy) -> (Actor, bool, Enemy) {
    let stomped = stomp_cond(p, e);
    let vertical_hit = e.alive && overlaps(player_vbox(p), e.enemy_box());
    let p1 = if stomped {
        Actor { vy: JUMP_SPEED, jumped: false, jump_count: p.jump_limit, ..p }
    } else {
        p
    };
    let alive1 = if vertical_hit && !stomped {
        false
    } else {
        alive
    };
    let e1 = if stomped {
        Enemy { alive: false, ..e }
    } else {
        e
    };
    let alive2 = if e.alive && overlaps(player_hbox(p1), e.enemy_box()) {
        false
    } else {
        alive1
    };
    (p1, alive2, e1)
}

/// The whole enemy scan, enemy by enemy in list order: the player state
/// carried forward, whether the player survived so far, and the updated
/// enemies.
pub open spec fn enemy_fold(p: Actor, alive: bool, es: Seq<Enemy>) -> (Actor, bool, Seq<Enemy>)
    decreases es.len(),
{
    if es.len() == 0 {
        (p, alive, es)
    } else {
        let prev = enemy_fold(p, alive, es.drop_last());
        let one = enemy_react_one(prev.0, prev.1, es.last());
        (one.0, one.1, prev.2.push(one.2))
    }
}

/// The scan keeps the number of enemies.
pub proof fn lemma_enemy_fold_len(p: Actor, alive: bool, es: Seq<Enemy>)
    ensures
        enemy_fold(p, alive, es).2.len() == es.len(),
    decreases es.len(),
{
    if es.len() > 0 {
        lemma_enemy_fold_len(p, alive, es.drop_last());
    }
}

/// React the player against every enemy in order. Returns true when some
/// overlap destroyed the player. Stomped enemies are marked dead but, as
/// removal is committed only after the scan, their boxes still kill on a
/// sideways contact within the same frame.
pub fn enemy_scan(player: &mut Actor, enemies: &mut Vec<Enemy>) -> (died: bool)
    requires
        old(player).wf(),
        enemies_wf(old(enemies)@),
    ensures
        *final(player) == enemy_fold(*old(player), true, old(enemies)@).0,
        died == !enemy_fold(*old(player), true, old(enemies)@).1,
        final(enemies)@ == enemy_fold(*old(player), true, old(enemies)@).2,
{
    let ghost p0 = *old(player);
    let ghost all = old(enemies)@;
    let mut p = *player;
    let mut alive = true;
    let mut i: usize = 0;
    while i < enemies.len()
        invariant
            0 <= i <= enemies@.len(),
            enemies@.len() == all.len(),
            all == old(enemies)@,
            enemies_wf(all),
            p0.wf(),
            p0 == *old(player),
            p == enemy_fold(p0, true, all.take(i as int)).0,
            alive == enemy_fold(p0, true, all.take(i as int)).1,
            enemies@ =~= enemy_fold(p0, true, all.take(i as int)).2 + all.skip(i as int),
            p.x == p0.x && p.y == p0.y && p.vx == p0.vx && p.half_w == p0.half_w && p.half_h
                == p0.half_h,
            p.vy == p0.vy || p.vy == JUMP_SPEED,
        decreases enemies@.len() - i,
    {
        proof {
            assert(all.take(i + 1 as int).drop_last() =~= all.take(i as int));
            assert(all.take(i + 1 as int).last() == all[i as int]);
            lemma_enemy_fold_len(p0, true, all.take(i as int));
            assert(enemies@[i as int] == all[i as int]);
        }
        let e = enemies[i];
        proof {
            assert(e == all[i as int]);
            assert(all[i as int].wf());
        }
        let eb = Aabb { x: e.x, y: e.y, hx: ENEMY_HALF, hy: ENEMY_HALF };
        let vb = Aabb { x: p.x, y: p.y + p.vy, hx: PLAYER_HALF_W, hy: PLAYER_HALF_H };
        if e.alive && boxes_overlap(&vb, &eb) {
            if p.vy < 0 && p.y - PLAYER_HALF_H >= e.y + ENEMY_HALF && e.tangible {
                p.vy = JUMP_SPEED;
                p.jumped = false;
                p.jump_count = p.jump_limit;
                enemies[i] = Enemy { alive: false, ..e };
            } else {
                alive = false;
            }
        }
        let hb = Aabb { x: p.x + p.vx, y: p.y, hx: PLAYER_HALF_W, hy: PLAYER_HALF_H };
        if e.alive && boxes_overlap(&hb, &eb) {
            alive = false;
        }
        proof {
            let prev = enemy_fold(p0, true, all.take(i as int));
            let one = enemy_react_one(prev.0, prev.1, all[i as int]);
            assert(p == one.0);
            assert(alive == one.1);
            assert(enemies@ =~= enemy_fold(p0, true, all.take(i + 1 as int)).2 + all.skip(
                i + 1 as int,
            ));
        }
        i += 1;
    }
    proof {
        assert(all.take(all.len() as int) =~= all);
        assert(all.skip(all.len() as int) =~= Seq::<Enemy>::empty());
        assert(enemies@ =~= enemy_fold(p0, true, all).2);
    }
    *player = p;
    !alive
}

/// Stomping a tangible enemy destroys the enemy and bounces the player —
/// upward speed restored to the jump speed, jumped flag cleared, jump
/// availability refreshed to the limit — without destroying the player,
/// as long as the sideways lookahead box misses the enemy.
pub proof fn lemma_stomp_bounces_player(p: Actor, e: Enemy)
    requires
        stomp_cond(p, e),
        !overlaps(player_hbox(p), e.enemy_box()),
    ensures
        !enemy_react_one(p, true, e).2.alive,
        enemy_react_one(p, true, e).1,
        enemy_react_one(p, true, e).0.vy == JUMP_SPEED,
        !enemy_react_one(p, true, e).0.jumped,
        enemy_react_one(p, true, e).0.jump_count == p.jump_limit,
{
}

/// The enemy scan preserves the jump invariant: a player that enters with
/// no more jumps than its limit leaves the same way, since a stomp
/// restores the count to the limit exactly and nothing else touches the
/// counters.
pub proof fn lemma_enemy_fold_keeps_jump_invariant(p: Actor, alive: bool, es: Seq<Enemy>)
    requires
        p.jump_count <= p.jump_limit,
    ensures
        enemy_fold(p, alive, es).0.jump_count <= enemy_fold(p, alive, es).0.jump_limit,
    decreases es.len(),
{
    if es.len() > 0 {
        lemma_enemy_fold_keeps_jump_invariant(p, alive, es.drop_last());
    }
}

/// Any other overlap with a live enemy — vertical without the stomp
/// condition, or sideways — destroys the player.
pub proof fn lemma_enemy_overlap_kills_player(p: Actor, e: Enemy)
    requires
        e.alive,
        !stomp_cond(p, e),
        overlaps(player_vbox(p), e.enemy_box()) || overlaps(player_hbox(p), e.enemy_box()),
    ensures
        !enemy_react_one(p, true, e).1,
{
}

} // verus!
