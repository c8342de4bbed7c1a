//! The paddle system: move every paddle with the held direction keys,
//! clamped to the world's width.

use vstd::prelude::*;

use crate::components::{transform_in_bounds, Transform};
use crate::constants::{DT_LIMIT, PADDLE_SPEED, WORLD_WIDTH};
use crate::math::{fx_scaled, lemma_fx_scaled_bounded, Fx, Vec2};
use crate::resources::InputState;
use crate::world::{world_in_bounds, Slot, World};

verus! {

/// The new x-coordinate of a paddle at `x`: pushed left or right by the
/// paddle speed over the elapsed time when exactly one direction is held,
/// clamped to `[0, WORLD_WIDTH]`; holding both directions or neither moves
/// nothing.
pub open spec fn paddle_step_x(x: int, input: InputState, dt: int) -> int {
    if input.left && !input.right {
        vstd::math::max(0, x - fx_scaled(PADDLE_SPEED as int, dt))
    } else if input.right && !input.left {
        vstd::math::min(WORLD_WIDTH as int, x + fx_scaled(PADDLE_SPEED as int, dt))
    } else {
        x
    }
}

/// One slot after the paddle system: a live paddle's transform moves to
/// the stepped x-coordinate; every other slot is untouched.
pub open spec fn paddle_stepped(s: Slot, input: InputState, dt: int) -> Slot {
    if s.alive && s.paddle && s.transform is Some {
        let t = s.transform->Some_0;
        Slot {
            transform: Some(
                Transform {
                    position: Vec2 {
                        x: Fx { raw: paddle_step_x(t.position.x@, input, dt) as i64 },
                        y: t.position.y,
                    },
                    ..t
                },
            ),
            ..s
        }
    } else {
        s
    }
}

/// The paddle system.  The elapsed time comes in from the frame clock; the
/// held keys from the shared input state.
pub struct PaddleSystem;

impl PaddleSystem {
    /// Move every live paddle by the held direction, clamped to the world.
    pub fn run(world: &mut World, input: &InputState, dt: Fx)
        requires
            old(world).wf(),
            world_in_bounds(old(world)@),
            0 <= dt@ <= DT_LIMIT,
        ensures
            final(world).wf(),
            final(world)@.len() == old(world)@.len(),
            forall|i: int|
                0 <= i < old(world)@.len() ==> final(world)@[i] == paddle_stepped(
                    #[trigger] old(world)@[i],
                    *input,
                    dt@,
                ),
    {
        let n = world.len();
        let mut i: usize = 0;
        while i < n
            invariant
                world.wf(),
                world_in_bounds(old(world)@),
                0 <= dt@ <= DT_LIMIT,
                i <= n,
                n == world@.len(),
                old(world)@.len() == n,
                forall|j: int|
                    i <= j < n ==> world@[j] == old(world)@[j],
                forall|j: int|
                    0 <= j < i ==> world@[j] == paddle_stepped(
                        #[trigger] old(world)@[j],
                        *input,
                        dt@,
                    ),
            decreases n - i,
        {
            let s = world.slot_at(i);
            if s.alive && s.paddle {
                match s.transform {
                    Some(t) => {
                        proof {
                            lemma_fx_scaled_bounded(
                                PADDLE_SPEED as int,
                                dt@,
                                PADDLE_SPEED as int,
                                DT_LIMIT as int,
                            );
                        }
                        let d = Fx::from_milli(PADDLE_SPEED).mul(dt);
                        let mut t2 = t;
                        if input.left && !input.right {
                            t2.set_x(t.position.x.sub(d).max(Fx::zero()));
                        } else if input.right && !input.left {
                            t2.set_x(t.position.x.add(d).min(Fx::from_milli(WORLD_WIDTH)));
                        }
                        world.set_transform_at(i, t2);
                    },
                    _ => {},
                }
            }
            i = i + 1;
        }
    }
}

/// A paddle standing at the left boundary with only the left key held
/// stays exactly at the boundary, however much time has passed: the clamp
/// wins over the motion.
pub proof fn lemma_paddle_clamped_at_left(input: InputState, dt: int)
    requires
        input.left,
        !input.right,
        dt >= 0,
    ensures
        paddle_step_x(0, input, dt) == 0,
{
    assert(0 <= PADDLE_SPEED * dt) by (nonlinear_arith)
        requires
            dt >= 0,
            PADDLE_SPEED > 0,
    ;
    crate::math::lemma_fx_scaled_range(PADDLE_SPEED as int, dt, 0, PADDLE_SPEED * dt);
}

} // verus!
