use vstd::prelude::*;
use crate::actor::{PLAYER_HALF_H, PLAYER_HALF_W};
use crate::geom::{Aabb, boxes_overlap, coord_ok, half_ok, overlaps};

verus! {

/// Half the side of a coin's 16 by 16 box.
pub const COIN_HALF: i64 = 8;

/// The sentinel id a trigger or an in-game text falls back to when the
/// level data carries no usable id field.
pub const DEFAULT_ID: i32 = 666;

/// The player's fixed 16 by 32 interaction box around a position.
pub open spec fn player_box(px: i64, py: i64) -> Aabb {
    Aabb { x: px, y: py, hx: PLAYER_HALF_W, hy: PLAYER_HALF_H }
}

/// A door: touching it requests a transition to the level it names.
#[derive(Debug)]
pub struct Door {
    pub x: i64,
    pub y: i64,
    pub hx: i64,
    pub hy: i64,
    pub id: String,
}

impl Door {
    pub open spec fn wf(self) -> bool {
        coord_ok(self.x as int) && coord_ok(self.y as int) && half_ok(self.hx as int) && half_ok(
            self.hy as int,
        )
    }

    pub open spec fn door_box(self) -> Aabb {
        Aabb { x: self.x, y: self.y, hx: self.hx, hy: self.hy }
    }
}

pub open spec fn doors_wf(ds: Seq<Door>) -> bool {
    forall|i: int| 0 <= i < ds.len() ==> (#[trigger] ds[i]).wf()
}

/// A collectible coin. A collected coin stays in the list with its flag
/// cleared; destroying it again is a no-op.
#[derive(Clone, Copy, PartialEq, Eq, Structural, Debug)]
pub struct Coin {
    pub x: i64,
    pub y: i64,
    pub alive: bool,
}

impl Coin {
    pub open spec fn wf(self) -> bool {
        coord_ok(self.x as int) && coord_ok(self.y as int)
    }

    pub open spec fn coin_box(self) -> Aabb {
        Aabb { x: self.x, y: self.y, hx: COIN_HALF, hy: COIN_HALF }
    }
}

pub open spec fn coins_wf(cs: Seq<Coin>) -> bool {
    forall|i: int| 0 <= i < cs.len() ==> (#[trigger] cs[i]).wf()
}

/// An invisible trigger region: touching it sets the visibility of every
/// in-game text that shares its id.
#[derive(Clone, Copy, PartialEq, Eq, Structural, Debug)]
pub struct Trigger {
    pub x: i64,
    pub y: i64,
    pub hx: i64,
    pub hy: i64,
    pub id: i32,
    pub visible: bool,
}

impl Trigger {
    pub open spec fn wf(self) -> bool {
        coord_ok(self.x as int) && coord_ok(self.y as int) && half_ok(self.hx as int) && half_ok(
            self.hy as int,
        )
    }

    pub open spec fn trigger_box(self) -> Aabb {
        Aabb { x: self.x, y: self.y, hx: self.hx, hy: self.hy }
    }
}

pub open spec fn triggers_wf(ts: Seq<Trigger>) -> bool {
    forall|i: int| 0 <= i < ts.len() ==> (#[trigger] ts[i]).wf()
}

/// A piece of in-game text: `visible` is the logical flag the triggers
/// drive, `shown` the rendered state that follows it once per frame.
#[derive(Debug)]
pub struct InGameText {
    pub value: String,
    pub visible: bool,
    pub shown: bool,
    pub text_id: i32,
}

/// A chatty bystander's species.
#[derive(Clone, Copy, PartialEq, Eq, Structural, Debug)]
pub enum NpcType {
    Alpaca,
    Test,
}

/// A chatty bystander. No interaction reads it yet; levels may still
/// carry them.
#[derive(Debug)]
pub struct Npc {
    pub npc_type: NpcType,
    pub dialogue: String,
}

/// Which door the player's box is touching: the last overlapping door of
/// the list wins, mirroring a scan that overwrites its request per hit.
pub open spec fn door_choice(ds: Seq<Door>, px: i64, py: i64) -> Option<int>
    decreases ds.len(),
{
    if ds.len() == 0 {
        None
    } else if overlaps(player_box(px, py), ds.last().door_box()) {
        Some(ds.len() - 1)
    } else {
        door_choice(ds.drop_last(), px, py)
    }
}

/// Scan the doors against the player's current box and return the level
/// identifier to request, if any. The request is re-issued on every frame
/// the overlap persists; edge detection is the caller's business.
pub fn door_scan(px: i64, py: i64, doors: &Vec<Door>) -> (r: Option<String>)
    requires
        coord_ok(px as int),
        coord_ok(py as int),
        doors_wf(doors@),
    ensures
        r is None <==> door_choice(doors@, px, py) is None,
        r matches Some(id) ==> door_choice(doors@, px, py) matches Some(i) && id@
            == doors@[i].id@,
{
    let pb = Aabb { x: px, y: py, hx: PLAYER_HALF_W, hy: PLAYER_HALF_H };
    let mut best: Option<usize> = None;
    let mut i: usize = 0;
    while i < doors.len()
        invariant
            0 <= i <= doors@.len(),
            doors_wf(doors@),
            coord_ok(px as int),
            coord_ok(py as int),
            pb == player_box(px, py),
            match best {
                Some(bi) => bi < i && door_choice(doors@.take(i as int), px, py) == Some(
                    bi as int,
                ),
                None => door_choice(doors@.take(i as int), px, py) is None,
            },
        decreases doors@.len() - i,
    {
        proof {
            assert(doors@.take(i + 1 as int).drop_last() =~= doors@.take(i as int));
            assert(doors@.take(i + 1 as int).last() == doors@[i as int]);
        }
        let d = &doors[i];
        let db = Aabb { x: d.x, y: d.y, hx: d.hx, hy: d.hy };
        if boxes_overlap(&pb, &db) {
            best = Some(i);
        }
        i += 1;
    }
    proof {
        assert(doors@.take(doors@.len() as int) =~= doors@);
    }
    match best {
        Some(bi) => Some(doors[bi].id.clone()),
        None => None,
    }
}

/// What one coin looks like after a collection pass for the given player
/// position: an overlapped live coin is destroyed, everything else is kept.
pub open spec fn collect_one(c: Coin, px: i64, py: i64) -> Coin {
    Coin { alive: c.alive && !overlaps(player_box(px, py), c.coin_box()), ..c }
}

pub open spec fn collect_spec(cs: Seq<Coin>, px: i64, py: i64) -> Seq<Coin> {
    Seq::new(cs.len(), |j: int| collect_one(cs[j], px, py))
}

/// Collect every live coin the player's current box overlaps. Destruction
/// only clears the flag, so collecting an already collected coin is a
/// no-op rather than an error.
pub fn coin_scan(px: i64, py: i64, coins: &mut Vec<Coin>)
    requires
        coord_ok(px as int),
        coord_ok(py as int),
        coins_wf(old(coins)@),
    ensures
        final(coins)@ == collect_spec(old(coins)@, px, py),
{
    let pb = Aabb { x: px, y: py, hx: PLAYER_HALF_W, hy: PLAYER_HALF_H };
    let mut i: usize = 0;
    while i < coins.len()
        invariant
            0 <= i <= coins@.len(),
            coins@.len() == old(coins)@.len(),
            coins_wf(old(coins)@),
            coord_ok(px as int),
            coord_ok(py as int),
            pb == player_box(px, py),
            forall|j: int| 0 <= j < i ==> coins@[j] == collect_one(#[trigger] old(coins)@[j], px, py),
            forall|j: int| i <= j < coins@.len() ==> coins@[j] == #[trigger] old(coins)@[j],
        decreases coins@.len() - i,
    {
        let c = coins[i];
        proof {
            assert(c == old(coins)@[i as int]);
            assert(old(coins)@[i as int].wf());
        }
        let cb = Aabb { x: c.x, y: c.y, hx: COIN_HALF, hy: COIN_HALF };
        if c.alive && boxes_overlap(&pb, &cb) {
            coins[i] = Coin { alive: false, ..c };
        }
        i += 1;
    }
    proof {
        assert(final(coins)@ =~= collect_spec(old(coins)@, px, py));
    }
}

/// Collecting coins is idempotent: a second pass for the same player
/// position changes nothing, so a destroyed coin can never be collected
/// again.
pub proof fn lemma_coin_collection_idempotent(cs: Seq<Coin>, px: i64, py: i64)
    ensures
        collect_spec(collect_spec(cs, px, py), px, py) == collect_spec(cs, px, py),
{
    assert(collect_spec(collect_spec(cs, px, py), px, py) =~= collect_spec(cs, px, py));
}

/// The visibility, if any, that the trigger scan assigns to a text with
/// this id: the last overlapping trigger with a matching id wins.
pub open spec fn trigger_setting(ts: Seq<Trigger>, px: i64, py: i64, id: i32) -> Option<bool>
    decreases ts.len(),
{
    if ts.len() == 0 {
        None
    } else if overlaps(player_box(px, py), ts.last().trigger_box()) && ts.last().id == id {
        Some(ts.last().visible)
    } else {
        trigger_setting(ts.drop_last(), px, py, id)
    }
}

/// What the trigger scan leaves of one text.
pub open spec fn retrigger_one(ts: Seq<Trigger>, px: i64, py: i64, t: InGameText) -> InGameText {
    match trigger_setting(ts, px, py, t.text_id) {
        Some(v) => InGameText { visible: v, ..t },
        None => t,
    }
}

/// For every trigger region the player's current box overlaps, set the
/// logical visibility of every text sharing the trigger's id. The rendered
/// state is untouched; `text_sync` picks the change up.
pub fn trigger_scan(px: i64, py: i64, triggers: &Vec<Trigger>, texts: &mut Vec<InGameText>)
    requires
        coord_ok(px as int),
        coord_ok(py as int),
        triggers_wf(triggers@),
    ensures
        final(texts)@.len() == old(texts)@.len(),
        forall|j: int|
            0 <= j < old(texts)@.len() ==> final(texts)@[j] == retrigger_one(
                triggers@,
                px,
                py,
                #[trigger] old(texts)@[j],
            ),
{
    let pb = Aabb { x: px, y: py, hx: PLAYER_HALF_W, hy: PLAYER_HALF_H };
    let mut i: usize = 0;
    while i < triggers.len()
        invariant
            0 <= i <= triggers@.len(),
            triggers_wf(triggers@),
            coord_ok(px as int),
            coord_ok(py as int),
            pb == player_box(px, py),
            texts@.len() == old(texts)@.len(),
            forall|j: int|
                0 <= j < old(texts)@.len() ==> texts@[j] == retrigger_one(
                    triggers@.take(i as int),
                    px,
                    py,
                    #[trigger] old(texts)@[j],
                ),
        decreases triggers@.len() - i,
    {
        proof {
            assert(triggers@.take(i + 1 as int).drop_last() =~= triggers@.take(i as int));
            assert(triggers@.take(i + 1 as int).last() == triggers@[i as int]);
        }
        let t = triggers[i];
        let tb = Aabb { x: t.x, y: t.y, hx: t.hx, hy: t.hy };
        if boxes_overlap(&pb, &tb) {
            let mut j: usize = 0;
            while j < texts.len()
                invariant
                    0 <= j <= texts@.len(),
                    texts@.len() == old(texts)@.len(),
                    overlaps(player_box(px, py), triggers@[i as int].trigger_box()),
                    t == triggers@[i as int],
                    i < triggers@.len(),
                    forall|k: int|
                        0 <= k < j ==> texts@[k] == retrigger_one(
                            triggers@.take(i + 1 as int),
                            px,
                            py,
                            #[trigger] old(texts)@[k],
                        ),
                    forall|k: int|
                        j <= k < texts@.len() ==> texts@[k] == retrigger_one(
                            triggers@.take(i as int),
                            px,
                            py,
                            #[trigger] old(texts)@[k],
                        ),
                decreases texts@.len() - j,
            {
                proof {
                    assert(triggers@.take(i + 1 as int).drop_last() =~= triggers@.take(i as int));
                    assert(triggers@.take(i + 1 as int).last() == triggers@[i as int]);
                }
                if texts[j].text_id == t.id {
                    let tref = &mut texts[j];
                    tref.visible = t.visible;
                }
                j += 1;
            }
        } else {
            proof {
                assert forall|k: int| 0 <= k < texts@.len() implies texts@[k] == retrigger_one(
                    triggers@.take(i + 1 as int),
                    px,
                    py,
                    old(texts)@[k],
                ) by {
                    assert(texts@[k] == retrigger_one(
                        triggers@.take(i as int),
                        px,
                        py,
                        old(texts)@[k],
                    ));
                }
            }
        }
        i += 1;
    }
    proof {
        assert(triggers@.take(triggers@.len() as int) =~= triggers@);
    }
}

/// Mirror every text's logical visibility into its rendered state.
pub fn text_sync(texts: &mut Vec<InGameText>)
    ensures
        final(texts)@.len() == old(texts)@.len(),
        forall|j: int|
            0 <= j < old(texts)@.len() ==> final(texts)@[j] == (InGameText {
                shown: old(texts)@[j].visible,
                ..(#[trigger] old(texts)@[j])
            }),
{
    let mut j: usize = 0;
    while j < texts.len()
        invariant
            0 <= j <= texts@.len(),
            texts@.len() == old(texts)@.len(),
            forall|k: int|
                0 <= k < j ==> texts@[k] == (InGameText {
                    shown: old(texts)@[k].visible,
                    ..(#[trigger] old(texts)@[k])
                }),
            forall|k: int| j <= k < texts@.len() ==> texts@[k] == #[trigger] old(texts)@[k],
        decreases texts@.len() - j,
    {
        let shown = texts[j].visible;
        let tref = &mut texts[j];
        tref.shown = shown;
        j += 1;
    }
}

} // verus!
