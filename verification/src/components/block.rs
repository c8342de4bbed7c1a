//! The destructible blocks the ball knocks out of the top rows of the
//! world.

use vstd::prelude::*;

use crate::components::{Hitbox, Sprite, Transform};
use crate::math::{Fx, Vec2, FX_ONE};
use crate::types::TextureInfo;
use crate::world::{fully_live, Entity, Slot, World};

verus! {

/// Tag component: the entity is a destructible block.
#[derive(Copy, Clone, Debug, Default)]
pub struct Block;

/// How many blocks `Block::init` lays out: twenty columns two units apart
/// across the world's width, four rows below the world's top edge.
pub const BLOCK_COLUMNS: u64 = 20;

/// Rows of blocks.
pub const BLOCK_ROWS: u64 = 4;

/// What `Block::init` adds for layout index `k` (column `k / 4`, row
/// `k % 4`): a live collidable block slot two units wide and one tall,
/// centered at `(2 * column + 1/2, 36 + row - 1/2)` world units.
pub open spec fn block_slot(s: Slot, k: int, tex: TextureInfo) -> bool {
    &&& s.alive
    &&& s.block
    &&& s.collidable
    &&& !s.paddle
    &&& s.ball is None
    &&& s.transform matches Some(t) && t.position.x@ == 2_000 * (k / 4) + 500
        && t.position.y@ == 1_000 * (36 + k % 4) - 500 && t.global.sx@ == 15 * FX_ONE
        && t.global.sy@ == 15 * FX_ONE && t.global.tx@ == 100 * FX_ONE && t.global.ty@ == 0
    &&& s.hitbox matches Some(h) && h.bottom_left.x@ == -15_000 && h.bottom_left.y@ == -7_500
        && h.top_right.x@ == 15_000 && h.top_right.y@ == 7_500
    &&& s.sprite matches Some(sp) && sp.texture.id == tex.id && sp.width == 30 && sp.height
        == 15 && sp.offsets.x@ == 500 && sp.offsets.y@ == 500
}

impl Block {
    /// Spawn the grid of blocks: four rows of twenty, filling the top four
    /// units of the world, each collidable and destructible.
    pub fn init(world: &mut World, tex_info: TextureInfo)
        requires
            old(world).wf(),
            fully_live(old(world)@),
            tex_info.width > 0,
            tex_info.height > 0,
        ensures
            final(world).wf(),
            fully_live(final(world)@),
            final(world)@.len() == old(world)@.len() + 80,
            forall|j: int|
                old(world)@.len() <= j < final(world)@.len() ==> block_slot(
                    #[trigger] final(world)@[j],
                    j - old(world)@.len(),
                    tex_info,
                ),
            forall|j: int|
                0 <= j < old(world)@.len() ==> final(world)@[j] == old(world)@[j],
    {
        let s1 = block_sprite(&tex_info);
        let mut x: u64 = 0;
        while x < BLOCK_COLUMNS
            invariant
                x <= BLOCK_COLUMNS,
                world.wf(),
                fully_live(world@),
                world@.len() == old(world)@.len() + 4 * x,
                s1.texture.id == tex_info.id,
                s1.width == 30 && s1.height == 15,
                s1.offsets.x@ == 500 && s1.offsets.y@ == 500,
                forall|j: int|
                    old(world)@.len() <= j < world@.len() ==> block_slot(
                        #[trigger] world@[j],
                        j - old(world)@.len(),
                        tex_info,
                    ),
                forall|j: int|
                    0 <= j < old(world)@.len() ==> world@[j] == old(world)@[j],
            decreases BLOCK_COLUMNS - x,
        {
            let mut y: u64 = 36;
            while y < 36 + BLOCK_ROWS
                invariant
                    x < BLOCK_COLUMNS,
                    36 <= y <= 36 + BLOCK_ROWS,
                    world.wf(),
                    fully_live(world@),
                    world@.len() == old(world)@.len() + 4 * x + (y - 36),
                    s1.texture.id == tex_info.id,
                    s1.width == 30 && s1.height == 15,
                    s1.offsets.x@ == 500 && s1.offsets.y@ == 500,
                    forall|j: int|
                        old(world)@.len() <= j < world@.len() ==> block_slot(
                            #[trigger] world@[j],
                            j - old(world)@.len(),
                            tex_info,
                        ),
                    forall|j: int|
                        0 <= j < old(world)@.len() ==> world@[j] == old(world)@[j],
                decreases 36 + BLOCK_ROWS - y,
            {
                spawn_block(world, s1, x, y);
                proof {
                    let k = 4 * (x as int) + (y as int) - 36;
                    vstd::arithmetic::div_mod::lemma_fundamental_div_mod_converse_div(
                        k,
                        4,
                        x as int,
                        (y as int) - 36,
                    );
                    vstd::arithmetic::div_mod::lemma_fundamental_div_mod_converse_mod(
                        k,
                        4,
                        x as int,
                        (y as int) - 36,
                    );
                }
                y = y + 1;
            }
            x = x + 1;
        }
    }
}

/// The thirty-by-fifteen block sprite, centered on its entity.
fn block_sprite(tex_info: &TextureInfo) -> (r: Sprite)
    requires
        tex_info.width > 0,
        tex_info.height > 0,
    ensures
        r.texture.id == tex_info.id,
        r.width == 30,
        r.height == 15,
        r.offsets.x@ == 500,
        r.offsets.y@ == 500,
{
    let mut s1 = Sprite::new(tex_info, (0, 0), (30, 15));
    s1.offsets = Vec2::new(Fx::from_milli(500), Fx::from_milli(500));
    s1
}

/// Spawn one block at column `x`, row `y - 36`.
fn spawn_block(world: &mut World, s1: Sprite, x: u64, y: u64) -> (e: Entity)
    requires
        old(world).wf(),
        fully_live(old(world)@),
        x < 20,
        36 <= y < 40,
    ensures
        final(world).wf(),
        fully_live(final(world)@),
        final(world)@.len() == old(world)@.len() + 1,
        e.index == old(world)@.len(),
        block_slot_xy(final(world)@[e.index as int], x as int, y as int, s1),
        forall|j: int|
            0 <= j < old(world)@.len() ==> final(world)@[j] == old(world)@[j],
{
    let global_t = Transform::default().with_pos(Vec2::new(
        Fx::from_int(100),
        Fx::from_int(0),
    )).with_scale(Vec2::new(Fx::from_int(15), Fx::from_int(15)));

    let mut t1 = Transform::default().with_pos(Vec2::new(
        Fx::from_milli((2_000 * (x as i64)) + 500),
        Fx::from_milli((1_000 * (y as i64)) - 500),
    ));
    t1.global = global_t.matrix();
    let hb = Hitbox::new(
        Vec2::new(Fx::from_milli(-15_000), Fx::from_milli(-7_500)),
        Vec2::new(Fx::from_milli(15_000), Fx::from_milli(7_500)),
    );

    let e = world.spawn();
    world.insert_sprite(e, s1);
    world.insert_transform(e, t1);
    world.insert_hitbox(e, hb);
    world.tag_block(e);
    world.tag_collidable(e);
    e
}

/// One block as laid out at column `x`, row `y - 36`.
pub open spec fn block_slot_xy(s: Slot, x: int, y: int, s1: Sprite) -> bool {
    &&& s.alive
    &&& s.block
    &&& s.collidable
    &&& !s.paddle
    &&& s.ball is None
    &&& s.transform matches Some(t) && t.position.x@ == 2_000 * x + 500 && t.position.y@
        == 1_000 * y - 500 && t.global.sx@ == 15 * FX_ONE && t.global.sy@ == 15 * FX_ONE
        && t.global.tx@ == 100 * FX_ONE && t.global.ty@ == 0
    &&& s.hitbox matches Some(h) && h.bottom_left.x@ == -15_000 && h.bottom_left.y@ == -7_500
        && h.top_right.x@ == 15_000 && h.top_right.y@ == 7_500
    &&& s.sprite matches Some(sp) && sp.texture.id == s1.texture.id && sp.width == s1.width
        && sp.height == s1.height && sp.offsets == s1.offsets
}

} // verus!
