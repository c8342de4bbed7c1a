//! The paddle: the player-controlled bat at the bottom of the world.

use vstd::prelude::*;

use crate::components::ball::Ball;
use crate::components::{Hitbox, Sprite, Transform};
use crate::math::{Fx, Vec2, FX_ONE};
use crate::types::TextureInfo;
use crate::world::{fully_live, Entity, Slot, World};

verus! {

/// Tag component: the entity is a paddle.
#[derive(Copy, Clone, Debug, Default)]
pub struct Paddle;

/// What `Paddle::init` adds: a live paddle slot with a fifty-by-fifteen
/// sprite and hitbox, standing at the middle of the world one unit up,
/// under the standard global transform.
pub open spec fn paddle_slot(s: Slot, tex: TextureInfo) -> bool {
    &&& s.alive
    &&& s.paddle
    &&& s.collidable
    &&& !s.block
    &&& s.ball is None
    &&& s.transform matches Some(t) && t.position.x@ == 20_000 && t.position.y@ == 1_000
        && t.global.sx@ == 15 * FX_ONE && t.global.sy@ == 15 * FX_ONE && t.global.tx@ == 100
        * FX_ONE && t.global.ty@ == 0
    &&& s.hitbox matches Some(h) && h.bottom_left.x@ == -25_000 && h.bottom_left.y@ == -7_500
        && h.top_right.x@ == 25_000 && h.top_right.y@ == 7_500
    &&& s.sprite matches Some(sp) && sp.texture.id == tex.id && sp.width == 50 && sp.height
        == 15 && sp.offsets.x@ == 500 && sp.offsets.y@ == 500
}

impl Paddle {
    /// Spawn the paddle at the middle of the world's width, one unit above
    /// the bottom, collidable, under the standard global transform.
    pub fn init(world: &mut World, tex_info: TextureInfo) -> (e: Entity)
        requires
            old(world).wf(),
            fully_live(old(world)@),
            tex_info.width > 0,
            tex_info.height > 0,
        ensures
            final(world).wf(),
            fully_live(final(world)@),
            final(world).valid(e),
            e.index == old(world)@.len(),
            final(world)@.len() == old(world)@.len() + 1,
            paddle_slot(final(world)@[e.index as int], tex_info),
            forall|j: int|
                0 <= j < old(world)@.len() ==> final(world)@[j] == old(world)@[j],
    {
        let global_t = Transform::default().with_pos(Vec2::new(
            Fx::from_int(100),
            Fx::from_int(0),
        )).with_scale(Vec2::new(Fx::from_int(15), Fx::from_int(15)));

        let mut s1 = Sprite::new(&tex_info, (0, 0), (50, 15));
        s1.offsets = Vec2::new(Fx::from_milli(500), Fx::from_milli(500));
        let mut t1 = Transform::default().with_pos(Vec2::new(
            Fx::from_int(20),
            Fx::from_int(1),
        ));
        t1.global = global_t.matrix();
        let hb = Hitbox::new(
            Vec2::new(Fx::from_milli(-25_000), Fx::from_milli(-7_500)),
            Vec2::new(Fx::from_milli(25_000), Fx::from_milli(7_500)),
        );

        let e = world.spawn();
        world.insert_sprite(e, s1);
        world.insert_transform(e, t1);
        world.insert_hitbox(e, hb);
        world.tag_paddle(e);
        world.tag_collidable(e);
        e
    }
}

} // verus!
