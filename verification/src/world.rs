//! The component store: a table of slots keyed by generational entity
//! identifiers, holding every per-entity component of the game.
//!
//! A deleted slot keeps its place but moves to the next generation, so an
//! identifier captured before the deletion can never silently name a later
//! entity that happens to reuse the slot.

use vstd::prelude::*;

use crate::components::ball::Ball;
use crate::components::{Hitbox, Sprite, Transform};

verus! {

/// Identifier of a spawned entity: the index of its slot and the
/// generation the slot had when the entity was spawned.
#[derive(Copy, Clone, Debug, PartialEq, Eq, Structural)]
pub struct Entity {
    pub index: usize,
    pub generation: u64,
}

/// One slot of the store: a generation counter, liveness, and one optional
/// value per component the game uses, with the three zero-sized tags held
/// as booleans.
#[derive(Copy, Clone, Debug)]
pub struct Slot {
    pub generation: u64,
    pub alive: bool,
    pub transform: Option<Transform>,
    pub hitbox: Option<Hitbox>,
    pub sprite: Option<Sprite>,
    pub ball: Option<Ball>,
    pub paddle: bool,
    pub block: bool,
    pub collidable: bool,
}

/// A slot carrying no components and no tags.
pub open spec fn cleared(s: Slot) -> bool {
    &&& s.transform is None
    &&& s.hitbox is None
    &&& s.sprite is None
    &&& s.ball is None
    &&& !s.paddle
    &&& !s.block
    &&& !s.collidable
}

/// The slot a fresh entity starts from: alive at generation `g` with
/// nothing attached.
pub open spec fn fresh_slot(g: u64) -> Slot {
    Slot {
        generation: g,
        alive: true,
        transform: None,
        hitbox: None,
        sprite: None,
        ball: None,
        paddle: false,
        block: false,
        collidable: false,
    }
}

/// The slot a deleted entity leaves behind: dead, cleared, one generation
/// further.
pub open spec fn tombstone(g: u64) -> Slot {
    Slot {
        generation: g,
        alive: false,
        transform: None,
        hitbox: None,
        sprite: None,
        ball: None,
        paddle: false,
        block: false,
        collidable: false,
    }
}

/// Every component the slot carries is within the simulation's coordinate
/// bounds.
pub open spec fn slot_in_bounds(s: Slot) -> bool {
    &&& (s.transform matches Some(t) ==> crate::components::transform_in_bounds(t))
    &&& (s.hitbox matches Some(h) ==> crate::components::hitbox_in_bounds(h))
    &&& (s.sprite matches Some(sp) ==> crate::components::sprite_in_bounds(sp))
    &&& (s.ball matches Some(b) ==> -crate::constants::VEL_LIMIT <= b.velocity.x@
        <= crate::constants::VEL_LIMIT && -crate::constants::VEL_LIMIT <= b.velocity.y@
        <= crate::constants::VEL_LIMIT)
}

/// Every slot of the store is within the simulation's coordinate bounds.
pub open spec fn world_in_bounds(s: Seq<Slot>) -> bool {
    forall|i: int| 0 <= i < s.len() ==> slot_in_bounds(#[trigger] s[i])
}

/// Every slot of the store holds a live entity: the state of a store that
/// has spawned but never deleted, as at game start.  While this holds,
/// spawning appends.
pub open spec fn fully_live(s: Seq<Slot>) -> bool {
    forall|i: int| 0 <= i < s.len() ==> (#[trigger] s[i]).alive
}

/// The slot with its cached global map replaced, where it has a transform
/// to carry one.
pub open spec fn with_global(s: Slot, g: crate::math::Mat) -> Slot {
    if s.transform is Some {
        Slot { transform: Some(Transform { global: g, ..s.transform->Some_0 }), ..s }
    } else {
        s
    }
}

/// Generations never move backwards between two states of the store.
pub open spec fn gens_monotone(pre: Seq<Slot>, post: Seq<Slot>) -> bool {
    &&& pre.len() <= post.len()
    &&& forall|i: int|
        0 <= i < pre.len() ==> (#[trigger] pre[i]).generation <= post[i].generation
}

/// The component store.
pub struct World {
    slots: Vec<Slot>,
}

impl View for World {
    type V = Seq<Slot>;

    closed spec fn view(&self) -> Seq<Slot> {
        self.slots@
    }
}

impl World {
    /// Well-formedness: a live slot has room for another generation, and a
    /// dead slot carries nothing.
    pub open spec fn wf(self) -> bool {
        forall|i: int|
            0 <= i < self@.len() ==> {
                &&& ((#[trigger] self@[i]).alive ==> self@[i].generation < u64::MAX)
                &&& (!self@[i].alive ==> cleared(self@[i]))
            }
    }

    /// `e` currently names a live entity.
    pub open spec fn valid(self, e: Entity) -> bool {
        &&& e.index < self@.len()
        &&& self@[e.index as int].alive
        &&& self@[e.index as int].generation == e.generation
    }

    /// An empty store.
    pub fn new() -> (w: World)
        ensures
            w@.len() == 0,
            w.wf(),
    {
        World { slots: Vec::new() }
    }

    /// Number of slots (live or dead) the store has ever laid out.
    pub fn len(&self) -> (n: usize)
        ensures
            n == self@.len(),
    {
        self.slots.len()
    }

    /// Spawn a fresh entity: reuse the first reusable dead slot, else lay
    /// out a new one.  The handle returned was never valid before.
    pub fn spawn(&mut self) -> (e: Entity)
        requires
            old(self).wf(),
        ensures
            final(self).wf(),
            final(self).valid(e),
            !old(self).valid(e),
            e.index < final(self)@.len(),
            final(self)@[e.index as int] == fresh_slot(e.generation),
            forall|j: int|
                0 <= j < old(self)@.len() && j != e.index ==> final(self)@[j] == old(self)@[j],
            e.index < old(self)@.len() ==> final(self)@.len() == old(self)@.len()
                && !old(self)@[e.index as int].alive,
            e.index >= old(self)@.len() ==> e.index == old(self)@.len() && final(self)@.len()
                == old(self)@.len() + 1 && e.generation == 0,
            gens_monotone(old(self)@, final(self)@),
    {
        let n = self.slots.len();
        let mut i: usize = 0;
        while i < n
            invariant
                old(self).wf(),
                self@ == old(self)@,
                n == self@.len(),
                i <= n,
                forall|j: int|
                    0 <= j < i ==> (#[trigger] self@[j]).alive || self@[j].generation
                        == u64::MAX,
            decreases n - i,
        {
            if !self.slots[i].alive && self.slots[i].generation < u64::MAX {
                let g = self.slots[i].generation;
                let mut s = self.slots[i];
                s.alive = true;
                self.slots[i] = s;
                return Entity { index: i, generation: g };
            }
            i = i + 1;
        }
        self.slots.push(
            Slot {
                generation: 0,
                alive: true,
                transform: None,
                hitbox: None,
                sprite: None,
                ball: None,
                paddle: false,
                block: false,
                collidable: false,
            },
        );
        Entity { index: n, generation: 0 }
    }

    /// Delete the entity `e` names, clearing its components and moving the
    /// slot to the next generation.  Returns whether `e` was live.  A
    /// deleted handle is invalid from here on, whatever is spawned later.
    pub fn delete(&mut self, e: Entity) -> (r: bool)
        requires
            old(self).wf(),
        ensures
            final(self).wf(),
            r == old(self).valid(e),
            !final(self).valid(e),
            r ==> final(self)@ == old(self)@.update(
                e.index as int,
                tombstone((e.generation + 1) as u64),
            ),
            !r ==> final(self)@ == old(self)@,
            gens_monotone(old(self)@, final(self)@),
    {
        if self.is_alive(e) {
            self.slots[e.index] = Slot {
                generation: e.generation + 1,
                alive: false,
                transform: None,
                hitbox: None,
                sprite: None,
                ball: None,
                paddle: false,
                block: false,
                collidable: false,
            };
            true
        } else {
            false
        }
    }

    /// Whether `e` names a live entity.
    pub fn is_alive(&self, e: Entity) -> (r: bool)
        ensures
            r == self.valid(e),
    {
        e.index < self.slots.len() && self.slots[e.index].alive
            && self.slots[e.index].generation == e.generation
    }

    /// The handle of the entity living in slot `i`.
    pub fn entity_at(&self, i: usize) -> (e: Entity)
        requires
            i < self@.len(),
        ensures
            e.index == i,
            e.generation == self@[i as int].generation,
            self@[i as int].alive ==> self.valid(e),
    {
        Entity { index: i, generation: self.slots[i].generation }
    }

    /// Whether slot `i` holds a live entity.
    pub fn alive_at(&self, i: usize) -> (r: bool)
        requires
            i < self@.len(),
        ensures
            r == self@[i as int].alive,
    {
        self.slots[i].alive
    }

    /// The whole slot `i`, for the systems that sweep the store.
    pub fn slot_at(&self, i: usize) -> (s: Slot)
        requires
            i < self@.len(),
        ensures
            s == self@[i as int],
    {
        self.slots[i]
    }

    /// Overwrite the transform of the live entity in slot `i`.
    pub fn set_transform_at(&mut self, i: usize, t: Transform)
        requires
            old(self).wf(),
            i < old(self)@.len(),
            old(self)@[i as int].alive,
        ensures
            final(self).wf(),
            final(self)@ == old(self)@.update(
                i as int,
                (Slot { transform: Some(t), ..old(self)@[i as int] }),
            ),
            gens_monotone(old(self)@, final(self)@),
    {
        let mut s = self.slots[i];
        s.transform = Some(t);
        self.slots[i] = s;
    }

    /// Overwrite the ball state of the live entity in slot `i`.
    pub fn set_ball_at(&mut self, i: usize, b: Ball)
        requires
            old(self).wf(),
            i < old(self)@.len(),
            old(self)@[i as int].alive,
        ensures
            final(self).wf(),
            final(self)@ == old(self)@.update(
                i as int,
                (Slot { ball: Some(b), ..old(self)@[i as int] }),
            ),
            gens_monotone(old(self)@, final(self)@),
    {
        let mut s = self.slots[i];
        s.ball = Some(b);
        self.slots[i] = s;
    }

    /// Attach a transform to the entity `e` names; a stale handle attaches
    /// nothing.
    pub fn insert_transform(&mut self, e: Entity, t: Transform) -> (r: bool)
        requires
            old(self).wf(),
        ensures
            final(self).wf(),
            r == old(self).valid(e),
            r ==> final(self)@ == old(self)@.update(
                e.index as int,
                (Slot { transform: Some(t), ..old(self)@[e.index as int] }),
            ),
            !r ==> final(self)@ == old(self)@,
            gens_monotone(old(self)@, final(self)@),
    {
        if self.is_alive(e) {
            let mut s = self.slots[e.index];
            s.transform = Some(t);
            self.slots[e.index] = s;
            true
        } else {
            false
        }
    }

    /// Attach a hitbox to the entity `e` names.
    pub fn insert_hitbox(&mut self, e: Entity, h: Hitbox) -> (r: bool)
        requires
            old(self).wf(),
        ensures
            final(self).wf(),
            r == old(self).valid(e),
            r ==> final(self)@ == old(self)@.update(
                e.index as int,
                (Slot { hitbox: Some(h), ..old(self)@[e.index as int] }),
            ),
            !r ==> final(self)@ == old(self)@,
            gens_monotone(old(self)@, final(self)@),
    {
        if self.is_alive(e) {
            let mut s = self.slots[e.index];
            s.hitbox = Some(h);
            self.slots[e.index] = s;
            true
        } else {
            false
        }
    }

    /// Attach a sprite to the entity `e` names.
    pub fn insert_sprite(&mut self, e: Entity, sp: Sprite) -> (r: bool)
        requires
            old(self).wf(),
        ensures
            final(self).wf(),
            r == old(self).valid(e),
            r ==> final(self)@ == old(self)@.update(
                e.index as int,
                (Slot { sprite: Some(sp), ..old(self)@[e.index as int] }),
            ),
            !r ==> final(self)@ == old(self)@,
            gens_monotone(old(self)@, final(self)@),
    {
        if self.is_alive(e) {
            let mut s = self.slots[e.index];
            s.sprite = Some(sp);
            self.slots[e.index] = s;
            true
        } else {
            false
        }
    }

    /// Attach ball state to the entity `e` names.
    pub fn insert_ball(&mut self, e: Entity, b: Ball) -> (r: bool)
        requires
            old(self).wf(),
        ensures
            final(self).wf(),
            r == old(self).valid(e),
            r ==> final(self)@ == old(self)@.update(
                e.index as int,
                (Slot { ball: Some(b), ..old(self)@[e.index as int] }),
            ),
            !r ==> final(self)@ == old(self)@,
            gens_monotone(old(self)@, final(self)@),
    {
        if self.is_alive(e) {
            let mut s = self.slots[e.index];
            s.ball = Some(b);
            self.slots[e.index] = s;
            true
        } else {
            false
        }
    }

    /// Tag the entity `e` names as a paddle.
    pub fn tag_paddle(&mut self, e: Entity) -> (r: bool)
        requires
            old(self).wf(),
        ensures
            final(self).wf(),
            r == old(self).valid(e),
            r ==> final(self)@ == old(self)@.update(
                e.index as int,
                (Slot { paddle: true, ..old(self)@[e.index as int] }),
            ),
            !r ==> final(self)@ == old(self)@,
            gens_monotone(old(self)@, final(self)@),
    {
        if self.is_alive(e) {
            let mut s = self.slots[e.index];
            s.paddle = true;
            self.slots[e.index] = s;
            true
        } else {
            false
        }
    }

    /// Tag the entity `e` names as a block.
    pub fn tag_block(&mut self, e: Entity) -> (r: bool)
        requires
            old(self).wf(),
        ensures
            final(self).wf(),
            r == old(self).valid(e),
            r ==> final(self)@ == old(self)@.update(
                e.index as int,
                (Slot { block: true, ..old(self)@[e.index as int] }),
            ),
            !r ==> final(self)@ == old(self)@,
            gens_monotone(old(self)@, final(self)@),
    {
        if self.is_alive(e) {
            let mut s = self.slots[e.index];
            s.block = true;
            self.slots[e.index] = s;
            true
        } else {
            false
        }
    }

    /// Tag the entity `e` names as collidable.
    pub fn tag_collidable(&mut self, e: Entity) -> (r: bool)
        requires
            old(self).wf(),
        ensures
            final(self).wf(),
            r == old(self).valid(e),
            r ==> final(self)@ == old(self)@.update(
                e.index as int,
                (Slot { collidable: true, ..old(self)@[e.index as int] }),
            ),
            !r ==> final(self)@ == old(self)@,
            gens_monotone(old(self)@, final(self)@),
    {
        if self.is_alive(e) {
            let mut s = self.slots[e.index];
            s.collidable = true;
            self.slots[e.index] = s;
            true
        } else {
            false
        }
    }

    /// Propagate a freshly computed global map into every transform that
    /// caches one, as a window resize demands.
    pub fn set_global_transform(&mut self, g: crate::math::Mat)
        requires
            old(self).wf(),
        ensures
            final(self).wf(),
            final(self)@.len() == old(self)@.len(),
            forall|i: int|
                0 <= i < old(self)@.len() ==> final(self)@[i] == with_global(
                    #[trigger] old(self)@[i],
                    g,
                ),
    {
        let n = self.slots.len();
        let mut i: usize = 0;
        while i < n
            invariant
                old(self).wf(),
                self.wf(),
                i <= n,
                n == self@.len(),
                self@.len() == old(self)@.len(),
                forall|j: int| i <= j < n ==> self@[j] == old(self)@[j],
                forall|j: int| 0 <= j < i ==> self@[j] == with_global(old(self)@[j], g),
            decreases n - i,
        {
            let mut s = self.slots[i];
            match s.transform {
                Some(t) => {
                    let mut t2 = t;
                    t2.global = g;
                    s.transform = Some(t2);
                    self.slots[i] = s;
                },
                _ => {},
            }
            i = i + 1;
        }
    }

    /// The transform of the entity `e` names, if any.
    pub fn get_transform(&self, e: Entity) -> (r: Option<Transform>)
        ensures
            self.valid(e) ==> r == self@[e.index as int].transform,
            !self.valid(e) ==> r is None,
    {
        if self.is_alive(e) {
            self.slots[e.index].transform
        } else {
            None
        }
    }

    /// The ball state of the entity `e` names, if any.
    pub fn get_ball(&self, e: Entity) -> (r: Option<Ball>)
        ensures
            self.valid(e) ==> r == self@[e.index as int].ball,
            !self.valid(e) ==> r is None,
    {
        if self.is_alive(e) {
            self.slots[e.index].ball
        } else {
            None
        }
    }
}

/// Stale handles stay stale: once the generation of a slot has moved past
/// the generation a handle carries, no later state whose generations have
/// only grown can validate that handle again.
pub proof fn lemma_stale_entity_never_revives(w1: World, w2: World, e: Entity)
    requires
        e.index < w1@.len(),
        w1@[e.index as int].generation > e.generation,
        gens_monotone(w1@, w2@),
    ensures
        !w2.valid(e),
{
}

} // verus!
