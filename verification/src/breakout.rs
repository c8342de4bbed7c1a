//! Game setup: lay out the paddle, the ball and the grid of blocks in a
//! fresh store.

use vstd::prelude::*;

use crate::components::ball::ball_slot;
use crate::components::block::block_slot;
use crate::components::paddle::paddle_slot;
use crate::components::{Ball, Block, Paddle};
use crate::game_error::GameError;
use crate::types::TextureInfo;
use crate::world::{fully_live, World};

verus! {

/// Populate the world: the paddle, then the ball, then the eighty blocks,
/// each under the standard global transform.  The textures come in from
/// the asset loader.
pub fn init(
    world: &mut World,
    paddle_tex: TextureInfo,
    ball_tex: TextureInfo,
    block_tex: TextureInfo,
) -> (r: Result<(), GameError>)
    requires
        old(world).wf(),
        fully_live(old(world)@),
        paddle_tex.width > 0,
        paddle_tex.height > 0,
        ball_tex.width > 0,
        ball_tex.height > 0,
        block_tex.width > 0,
        block_tex.height > 0,
    ensures
        r is Ok,
        final(world).wf(),
        fully_live(final(world)@),
        final(world)@.len() == old(world)@.len() + 82,
        paddle_slot(final(world)@[old(world)@.len() as int], paddle_tex),
        ball_slot(final(world)@[old(world)@.len() as int + 1], ball_tex),
        forall|j: int|
            old(world)@.len() + 2 <= j < final(world)@.len() ==> block_slot(
                #[trigger] final(world)@[j],
                j - (old(world)@.len() + 2),
                block_tex,
            ),
        forall|j: int|
            0 <= j < old(world)@.len() ==> final(world)@[j] == old(world)@[j],
{
    Paddle::init(world, paddle_tex);
    Ball::init(world, ball_tex);
    Block::init(world, block_tex);
    Ok(())
}

} // verus!
