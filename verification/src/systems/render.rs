//! The rendering adapter: turn every entity that carries both a sprite and
//! a transform into a draw command.  Uploading the commands to the GPU and
//! presenting the frame happen outside the library.

use vstd::prelude::*;

use crate::components::{model_matrix_fits, Sprite, Transform};
use crate::constants::{POS_LIMIT, SCALE_LIMIT, SPRITE_OFFSET_LIMIT};
use crate::math::{fx_scaled, lemma_fx_scaled_bounded, Fx, Mat, FX_ONE};
use crate::types::TextureId;
use crate::world::{slot_in_bounds, world_in_bounds, Slot, World};

verus! {

/// One draw command: the sprite's model matrix, the view matrix placing it
/// at the entity's screen point, and the texture to bind.
#[derive(Copy, Clone, Debug, PartialEq, Eq, Structural)]
pub struct RenderCommand {
    pub model: Mat,
    pub view: Mat,
    pub texture: TextureId,
}

/// The slot takes part in rendering: live with both a sprite and a
/// transform.
pub open spec fn renderable(s: Slot) -> bool {
    s.alive && s.sprite is Some && s.transform is Some
}

/// The model matrix of a sprite, as [`Sprite::get_model_matrix`] builds
/// it.
pub open spec fn model_matrix_of(s: Sprite) -> Mat {
    Mat {
        sx: Fx { raw: (s.width * FX_ONE) as i64 },
        sy: Fx { raw: (-(s.height * FX_ONE)) as i64 },
        tx: Fx { raw: (-fx_scaled(s.width * FX_ONE, s.offsets.x@)) as i64 },
        ty: Fx { raw: fx_scaled(s.height * FX_ONE, s.offsets.y@) as i64 },
    }
}

/// The view matrix of a transform: its own scale, translated to its screen
/// point.
pub open spec fn view_matrix_of(t: Transform) -> Mat {
    Mat {
        sx: t.scale.x,
        sy: t.scale.y,
        tx: Fx { raw: t.screen_x() as i64 },
        ty: Fx { raw: t.screen_y() as i64 },
    }
}

/// The draw command of one renderable slot.
pub open spec fn command_of(s: Slot) -> RenderCommand {
    RenderCommand {
        model: model_matrix_of(s.sprite->Some_0),
        view: view_matrix_of(s.transform->Some_0),
        texture: s.sprite->Some_0.texture.id,
    }
}

/// The draw commands of the first `n` slots, in slot order.
pub open spec fn commands_upto(s: Seq<Slot>, n: int) -> Seq<RenderCommand>
    decreases n,
{
    if n <= 0 {
        Seq::empty()
    } else if renderable(s[n - 1]) {
        commands_upto(s, n - 1).push(command_of(s[n - 1]))
    } else {
        commands_upto(s, n - 1)
    }
}

/// A store within the simulation's coordinate bounds meets the rendering
/// adapter's precondition: every renderable slot's model matrix and screen
/// point stay representable.
pub proof fn lemma_bounded_world_renders(s: Seq<Slot>)
    requires
        world_in_bounds(s),
    ensures
        forall|i: int|
            0 <= i < s.len() && renderable(#[trigger] s[i]) ==> model_matrix_fits(
                s[i].sprite->Some_0,
            ) && s[i].transform->Some_0.screen_fits(),
{
    assert forall|i: int| 0 <= i < s.len() && renderable(#[trigger] s[i]) implies
        model_matrix_fits(s[i].sprite->Some_0) && s[i].transform->Some_0.screen_fits() by {
        assert(slot_in_bounds(s[i]));
        let sp = s[i].sprite->Some_0;
        let t = s[i].transform->Some_0;
        lemma_fx_scaled_bounded(
            sp.width * FX_ONE,
            sp.offsets.x@,
            1_000_000_000,
            SPRITE_OFFSET_LIMIT as int,
        );
        lemma_fx_scaled_bounded(
            sp.height * FX_ONE,
            sp.offsets.y@,
            1_000_000_000,
            SPRITE_OFFSET_LIMIT as int,
        );
        lemma_fx_scaled_bounded(
            t.global.sx@,
            t.position.x@,
            SCALE_LIMIT as int,
            POS_LIMIT as int,
        );
        lemma_fx_scaled_bounded(
            t.global.sy@,
            t.position.y@,
            SCALE_LIMIT as int,
            POS_LIMIT as int,
        );
    }
}

/// The rendering adapter.  It owns nothing: the GPU surface, the shader
/// program and the command submission live with the platform layer, which
/// feeds the commands built here to the screen.
pub struct RenderingSystem;

impl RenderingSystem {
    /// Append the draw command for one sprite under its transform.
    pub fn queue_sprite_render(
        buf: &mut Vec<RenderCommand>,
        sprite: &Sprite,
        transform: &Transform,
    )
        requires
            model_matrix_fits(*sprite),
            transform.screen_fits(),
        ensures
            final(buf)@ == old(buf)@.push(
                (RenderCommand {
                    model: model_matrix_of(*sprite),
                    view: view_matrix_of(*transform),
                    texture: sprite.texture.id,
                }),
            ),
    {
        let model = sprite.get_model_matrix();
        let p = transform.as_screen_point();
        let view = transform.with_pos(p).matrix();
        buf.push(RenderCommand { model, view, texture: sprite.texture.id });
    }

    /// Build the frame's draw commands: one per renderable slot, in slot
    /// order.
    pub fn run(world: &World) -> (buf: Vec<RenderCommand>)
        requires
            forall|i: int|
                0 <= i < world@.len() && renderable(#[trigger] world@[i]) ==> {
                    &&& model_matrix_fits(world@[i].sprite->Some_0)
                    &&& world@[i].transform->Some_0.screen_fits()
                },
        ensures
            buf@ == commands_upto(world@, world@.len() as int),
    {
        let n = world.len();
        let mut buf: Vec<RenderCommand> = Vec::new();
        let mut i: usize = 0;
        while i < n
            invariant
                i <= n,
                n == world@.len(),
                buf@ == commands_upto(world@, i as int),
                forall|j: int|
                    0 <= j < world@.len() && renderable(#[trigger] world@[j]) ==> {
                        &&& model_matrix_fits(world@[j].sprite->Some_0)
                        &&& world@[j].transform->Some_0.screen_fits()
                    },
            decreases n - i,
        {
            let s = world.slot_at(i);
            if s.alive {
                match (s.sprite, s.transform) {
                    (Some(sp), Some(t)) => {
                        Self::queue_sprite_render(&mut buf, &sp, &t);
                    },
                    _ => {},
                }
            }
            i = i + 1;
        }
        buf
    }
}

} // verus!
