//! The ball: the only entity with simulation-owned velocity.

use vstd::prelude::*;

use crate::constants::{BALL_SPEED_DIAGONAL, WORLD_HEIGHT};
use crate::components::{Hitbox, Sprite, Transform};
use crate::math::{Fx, Vec2, FX_ONE};
use crate::types::TextureInfo;
use crate::world::{fully_live, Entity, Slot, World};

verus! {

/// Velocity of a ball entity, in world units per second.
#[derive(Copy, Clone, Debug, PartialEq, Eq, Structural)]
pub struct Ball {
    pub velocity: Vec2,
}

impl Ball {
    /// Spawn the ball: a fifteen-by-fifteen sprite and hitbox halfway up
    /// the left edge of the world, moving diagonally down-right at the
    /// configured speed under the standard global transform.
    pub fn init(world: &mut World, tex_info: TextureInfo) -> (e: Entity)
        requires
            old(world).wf(),
            fully_live(old(world)@),
            tex_info.width > 0,
            tex_info.height > 0,
        ensures
            final(world).wf(),
            fully_live(final(world)@),
            final(world).valid(e),
            e.index == old(world)@.len(),
            final(world)@.len() == old(world)@.len() + 1,
            ball_slot(final(world)@[e.index as int], tex_info),
            forall|j: int|
                0 <= j < old(world)@.len() ==> final(world)@[j] == old(world)@[j],
    {
        let global_t = Transform::default().with_pos(Vec2::new(
            Fx::from_int(100),
            Fx::from_int(0),
        )).with_scale(Vec2::new(Fx::from_int(15), Fx::from_int(15)));

        let ball = Ball {
            velocity: Vec2::new(
                Fx::from_milli(BALL_SPEED_DIAGONAL),
                Fx::from_milli(-BALL_SPEED_DIAGONAL),
            ),
        };
        let mut s1 = Sprite::new(&tex_info, (0, 0), (15, 15));
        s1.offsets = Vec2::new(Fx::from_milli(500), Fx::from_milli(500));
        let mut t1 = Transform::default().with_pos(Vec2::new(
            Fx::from_milli(500),
            Fx::from_milli(20_000),
        ));
        t1.global = global_t.matrix();
        let hb = ball_hitbox();

        let e = world.spawn();
        world.insert_sprite(e, s1);
        world.insert_transform(e, t1);
        world.insert_hitbox(e, hb);
        world.insert_ball(e, ball);
        e
    }
}

/// The ball's bounding box: fifteen units square, centered.
fn ball_hitbox() -> (r: Hitbox)
    ensures
        r.bottom_left.x@ == -7_500,
        r.bottom_left.y@ == -7_500,
        r.top_right.x@ == 7_500,
        r.top_right.y@ == 7_500,
{
    Hitbox::new(
        Vec2::new(Fx::from_milli(-7_500), Fx::from_milli(-7_500)),
        Vec2::new(Fx::from_milli(7_500), Fx::from_milli(7_500)),
    )
}

/// What `Ball::init` adds: a live slot carrying the ball's sprite,
/// transform, hitbox and its initial down-right diagonal velocity, halfway
/// up the left edge of the world.
pub open spec fn ball_slot(s: Slot, tex: TextureInfo) -> bool {
    &&& s.alive
    &&& !s.paddle
    &&& !s.block
    &&& !s.collidable
    &&& s.ball matches Some(b) && b.velocity.x@ == BALL_SPEED_DIAGONAL && b.velocity.y@
        == -BALL_SPEED_DIAGONAL
    &&& s.transform matches Some(t) && t.position.x@ == 500 && t.position.y@ == WORLD_HEIGHT
        / 2 && t.global.sx@ == 15 * FX_ONE && t.global.sy@ == 15 * FX_ONE && t.global.tx@
        == 100 * FX_ONE && t.global.ty@ == 0
    &&& s.hitbox matches Some(h) && h.bottom_left.x@ == -7_500 && h.bottom_left.y@ == -7_500
        && h.top_right.x@ == 7_500 && h.top_right.y@ == 7_500
    &&& s.sprite matches Some(sp) && sp.texture.id == tex.id && sp.width == 15 && sp.height
        == 15 && sp.offsets.x@ == 500 && sp.offsets.y@ == 500
}

} // verus!
