//! The ball system: integrate every ball's velocity over the elapsed
//! time, bounce off the world's walls and every collidable entity, lose
//! balls that fall out of the bottom, and knock out the blocks that were
//! hit.
//!
//! The frame is staged: first every ball moves, then every ball/collidable
//! pair is classified against the moved positions, and only then are
//! velocities reflected and hit blocks deleted — so no bounce decision can
//! observe another ball's already-updated velocity.

use vstd::prelude::*;

use crate::components::ball::Ball;
use crate::components::{classify_at, Hitbox, Transform};
use crate::constants::{
    CENTER_LIMIT, DT_LIMIT, POS_STEP_LIMIT, SCALE_LIMIT, VEL_LIMIT, WORLD_HEIGHT, WORLD_WIDTH,
};
use crate::math::{fx_scaled, lemma_fx_scaled_bounded, mat_apply_x, mat_apply_y, Fx, Vec2};
use crate::types::OverlapType;
use crate::world::{slot_in_bounds, tombstone, world_in_bounds, Slot, World};

verus! {

/// The slot simulates as a ball: live, with velocity, a transform and a
/// hitbox.
pub open spec fn is_sim_ball(s: Slot) -> bool {
    s.alive && s.ball is Some && s.transform is Some && s.hitbox is Some
}

/// The slot is an obstacle: live and collidable, with a transform and a
/// hitbox.
pub open spec fn is_collider(s: Slot) -> bool {
    s.alive && s.collidable && s.transform is Some && s.hitbox is Some
}

/// A slot after integration: a ball's position advances by its velocity
/// over the elapsed time; anything else is untouched.
pub open spec fn integrated(s: Slot, dt: int) -> Slot {
    if is_sim_ball(s) {
        let t = s.transform->Some_0;
        let v = s.ball->Some_0.velocity;
        Slot {
            transform: Some(
                Transform {
                    position: Vec2 {
                        x: Fx { raw: (t.position.x@ + fx_scaled(v.x@, dt)) as i64 },
                        y: Fx { raw: (t.position.y@ + fx_scaled(v.y@, dt)) as i64 },
                    },
                    ..t
                },
            ),
            ..s
        }
    } else {
        s
    }
}

/// The whole store after integration.
pub open spec fn integrated_seq(s: Seq<Slot>, dt: int) -> Seq<Slot> {
    Seq::new(s.len(), |i: int| integrated(s[i], dt))
}

/// The entity's screen point as a fixed-point pair.
pub open spec fn screen_center(t: Transform) -> Vec2 {
    Vec2 { x: Fx { raw: t.screen_x() as i64 }, y: Fx { raw: t.screen_y() as i64 } }
}

/// Half the hitbox's horizontal span, rounded down.
pub open spec fn half_width(h: Hitbox) -> int {
    (h.top_right.x@ - h.bottom_left.x@) / 2
}

/// Half the hitbox's vertical span, rounded down.
pub open spec fn half_height(h: Hitbox) -> int {
    (h.top_right.y@ - h.bottom_left.y@) / 2
}

/// The ball (already integrated) has crossed the left or right edge of the
/// world, measured in screen space against the images of the world's two
/// corner points.
pub open spec fn wall_bounce_h(s: Slot) -> bool {
    let t = s.transform->Some_0;
    let h = s.hitbox->Some_0;
    let cx = t.screen_x();
    let lo = mat_apply_x(t.global, 0);
    let hi = mat_apply_x(t.global, WORLD_WIDTH as int);
    cx - half_width(h) < lo || cx + half_width(h) > hi
}

/// The ball has crossed the top edge of the world.
pub open spec fn wall_bounce_v(s: Slot) -> bool {
    let t = s.transform->Some_0;
    let h = s.hitbox->Some_0;
    t.screen_y() + half_height(h) > mat_apply_y(t.global, WORLD_HEIGHT as int)
}

/// The ball has fallen out of the bottom of the world: it is lost and its
/// velocity zeroes instead of reflecting.
pub open spec fn ball_lost(s: Slot) -> bool {
    let t = s.transform->Some_0;
    let h = s.hitbox->Some_0;
    t.screen_y() - half_height(h) < mat_apply_y(t.global, 0)
}

/// The classification of ball `i` against collider `j`, both at their
/// screen centers in the integrated state.
pub open spec fn pair_overlap(s: Seq<Slot>, i: int, j: int) -> OverlapType {
    classify_at(
        s[i].hitbox->Some_0,
        screen_center(s[i].transform->Some_0),
        s[j].hitbox->Some_0,
        screen_center(s[j].transform->Some_0),
    )
}

/// Ball `i` touches some collider among the first `upto` slots edge-on in
/// x or at a corner.
pub open spec fn hit_x_upto(s: Seq<Slot>, i: int, upto: int) -> bool {
    exists|j: int|
        0 <= j < upto && is_collider(#[trigger] s[j]) && (pair_overlap(s, i, j)
            == OverlapType::OnlyX || pair_overlap(s, i, j) == OverlapType::Both)
}

/// Ball `i` touches some collider edge-on in y or at a corner.
pub open spec fn hit_y_upto(s: Seq<Slot>, i: int, upto: int) -> bool {
    exists|j: int|
        0 <= j < upto && is_collider(#[trigger] s[j]) && (pair_overlap(s, i, j)
            == OverlapType::OnlyY || pair_overlap(s, i, j) == OverlapType::Both)
}

/// Some ball among the first `upto` slots touches slot `j`.
pub open spec fn any_hit_upto(s: Seq<Slot>, j: int, upto: int) -> bool {
    exists|i: int|
        0 <= i < upto && is_sim_ball(#[trigger] s[i]) && pair_overlap(s, i, j)
            != OverlapType::Neither
}

/// The block in slot `j` is hit by some ball this frame and is deleted.
pub open spec fn block_deleted(s: Seq<Slot>, j: int) -> bool {
    is_collider(s[j]) && s[j].block && any_hit_upto(s, j, s.len() as int)
}

/// The velocity ball `i` leaves the frame with: zeroed if the ball was
/// lost out of the bottom, then reflected on each axis with a pending
/// bounce, whether from a wall or from a collider.
pub open spec fn stepped_velocity(s: Seq<Slot>, i: int) -> Vec2 {
    let v = s[i].ball->Some_0.velocity;
    let base_x: int = if ball_lost(s[i]) {
        0
    } else {
        v.x@
    };
    let base_y: int = if ball_lost(s[i]) {
        0
    } else {
        v.y@
    };
    let vx: int = if wall_bounce_h(s[i]) || hit_x_upto(s, i, s.len() as int) {
        -base_x
    } else {
        base_x
    };
    let vy: int = if wall_bounce_v(s[i]) || hit_y_upto(s, i, s.len() as int) {
        -base_y
    } else {
        base_y
    };
    Vec2 { x: Fx { raw: vx as i64 }, y: Fx { raw: vy as i64 } }
}

/// A ball slot of the integrated store with its stepped velocity applied;
/// anything else untouched.
pub open spec fn bounced_slot(s1: Seq<Slot>, k: int) -> Slot {
    if is_sim_ball(s1[k]) {
        Slot { ball: Some(Ball { velocity: stepped_velocity(s1, k) }), ..s1[k] }
    } else {
        s1[k]
    }
}

/// One slot of the frame's final store: a hit block's tombstone, a ball
/// with its stepped velocity, or the integrated slot unchanged.
pub open spec fn stepped_slot(s1: Seq<Slot>, j: int) -> Slot {
    if block_deleted(s1, j) {
        tombstone((s1[j].generation + 1) as u64)
    } else {
        bounced_slot(s1, j)
    }
}

/// The whole frame: every ball integrated, then every hit block replaced
/// by its tombstone and every ball given its stepped velocity.
pub open spec fn ball_step_spec(s: Seq<Slot>, dt: int) -> Seq<Slot> {
    Seq::new(s.len(), |j: int| stepped_slot(integrated_seq(s, dt), j))
}

/// Bounds carried from a well-bounded slot to its integrated state: the
/// moved position, its screen point and its box corners all stay far
/// inside the fixed-point range.
proof fn lemma_integrated_bounds(s: Slot, dt: int)
    requires
        slot_in_bounds(s),
        0 <= dt <= DT_LIMIT,
    ensures
        integrated(s, dt).generation == s.generation,
        integrated(s, dt).alive == s.alive,
        integrated(s, dt).hitbox == s.hitbox,
        integrated(s, dt).sprite == s.sprite,
        integrated(s, dt).ball == s.ball,
        integrated(s, dt).paddle == s.paddle,
        integrated(s, dt).block == s.block,
        integrated(s, dt).collidable == s.collidable,
        integrated(s, dt).transform matches Some(t) ==> {
            &&& -POS_STEP_LIMIT <= t.position.x@ <= POS_STEP_LIMIT
            &&& -POS_STEP_LIMIT <= t.position.y@ <= POS_STEP_LIMIT
            &&& t.screen_fits()
            &&& -CENTER_LIMIT <= t.screen_x() <= CENTER_LIMIT
            &&& -CENTER_LIMIT <= t.screen_y() <= CENTER_LIMIT
            &&& t.global == s.transform->Some_0.global
        },
{
    if is_sim_ball(s) {
        let t = s.transform->Some_0;
        let v = s.ball->Some_0.velocity;
        lemma_fx_scaled_bounded(v.x@, dt, VEL_LIMIT as int, DT_LIMIT as int);
        lemma_fx_scaled_bounded(v.y@, dt, VEL_LIMIT as int, DT_LIMIT as int);
    }
    if integrated(s, dt).transform is Some {
        let t2 = integrated(s, dt).transform->Some_0;
        lemma_fx_scaled_bounded(
            t2.global.sx@,
            t2.position.x@,
            SCALE_LIMIT as int,
            POS_STEP_LIMIT as int,
        );
        lemma_fx_scaled_bounded(
            t2.global.sy@,
            t2.position.y@,
            SCALE_LIMIT as int,
            POS_STEP_LIMIT as int,
        );
    }
}

/// The screen images of the world's two corner points stay representable
/// for a transform with bounded global scale.
proof fn lemma_world_corner_bounds(t: Transform)
    requires
        -SCALE_LIMIT <= t.global.sx@ <= SCALE_LIMIT,
        -SCALE_LIMIT <= t.global.sy@ <= SCALE_LIMIT,
    ensures
        -(SCALE_LIMIT * WORLD_WIDTH) / 1000 <= fx_scaled(t.global.sx@, WORLD_WIDTH as int) <= (
        SCALE_LIMIT * WORLD_WIDTH) / 1000,
        -(SCALE_LIMIT * WORLD_HEIGHT) / 1000 <= fx_scaled(t.global.sy@, WORLD_HEIGHT as int)
            <= (SCALE_LIMIT * WORLD_HEIGHT) / 1000,
        fx_scaled(t.global.sx@, 0) == 0,
        fx_scaled(t.global.sy@, 0) == 0,
{
    lemma_fx_scaled_bounded(
        t.global.sx@,
        WORLD_WIDTH as int,
        SCALE_LIMIT as int,
        WORLD_WIDTH as int,
    );
    lemma_fx_scaled_bounded(
        t.global.sy@,
        WORLD_HEIGHT as int,
        SCALE_LIMIT as int,
        WORLD_HEIGHT as int,
    );
}

/// Extending the collider scan by one slot adds exactly that slot's
/// contribution to the pending x-bounce.
proof fn lemma_hit_x_upto_step(s: Seq<Slot>, i: int, j: int)
    requires
        0 <= j,
    ensures
        hit_x_upto(s, i, j + 1) <==> (hit_x_upto(s, i, j) || (is_collider(s[j]) && (
        pair_overlap(s, i, j) == OverlapType::OnlyX || pair_overlap(s, i, j)
            == OverlapType::Both))),
{
    if hit_x_upto(s, i, j) {
        let jw = choose|jw: int|
            0 <= jw < j && is_collider(#[trigger] s[jw]) && (pair_overlap(s, i, jw)
                == OverlapType::OnlyX || pair_overlap(s, i, jw) == OverlapType::Both);
        assert(0 <= jw < j + 1);
        assert(hit_x_upto(s, i, j + 1));
    }
    if is_collider(s[j]) && (pair_overlap(s, i, j) == OverlapType::OnlyX || pair_overlap(
        s,
        i,
        j,
    ) == OverlapType::Both) {
        assert(hit_x_upto(s, i, j + 1));
    }
    if hit_x_upto(s, i, j + 1) && !(is_collider(s[j]) && (pair_overlap(s, i, j)
        == OverlapType::OnlyX || pair_overlap(s, i, j) == OverlapType::Both)) {
        let jw = choose|jw: int|
            0 <= jw < j + 1 && is_collider(#[trigger] s[jw]) && (pair_overlap(s, i, jw)
                == OverlapType::OnlyX || pair_overlap(s, i, jw) == OverlapType::Both);
        assert(jw != j);
        assert(hit_x_upto(s, i, j));
    }
}

/// The y-axis twin of the scan-extension step.
proof fn lemma_hit_y_upto_step(s: Seq<Slot>, i: int, j: int)
    requires
        0 <= j,
    ensures
        hit_y_upto(s, i, j + 1) <==> (hit_y_upto(s, i, j) || (is_collider(s[j]) && (
        pair_overlap(s, i, j) == OverlapType::OnlyY || pair_overlap(s, i, j)
            == OverlapType::Both))),
{
    if hit_y_upto(s, i, j) {
        let jw = choose|jw: int|
            0 <= jw < j && is_collider(#[trigger] s[jw]) && (pair_overlap(s, i, jw)
                == OverlapType::OnlyY || pair_overlap(s, i, jw) == OverlapType::Both);
        assert(0 <= jw < j + 1);
        assert(hit_y_upto(s, i, j + 1));
    }
    if is_collider(s[j]) && (pair_overlap(s, i, j) == OverlapType::OnlyY || pair_overlap(
        s,
        i,
        j,
    ) == OverlapType::Both) {
        assert(hit_y_upto(s, i, j + 1));
    }
    if hit_y_upto(s, i, j + 1) && !(is_collider(s[j]) && (pair_overlap(s, i, j)
        == OverlapType::OnlyY || pair_overlap(s, i, j) == OverlapType::Both)) {
        let jw = choose|jw: int|
            0 <= jw < j + 1 && is_collider(#[trigger] s[jw]) && (pair_overlap(s, i, jw)
                == OverlapType::OnlyY || pair_overlap(s, i, jw) == OverlapType::Both);
        assert(jw != j);
        assert(hit_y_upto(s, i, j));
    }
}

/// Extending the ball scan by one ball adds exactly that ball's
/// contribution to a slot's pending hit.
proof fn lemma_any_hit_upto_step(s: Seq<Slot>, j: int, i: int)
    requires
        0 <= i,
    ensures
        any_hit_upto(s, j, i + 1) <==> (any_hit_upto(s, j, i) || (is_sim_ball(s[i])
            && pair_overlap(s, i, j) != OverlapType::Neither)),
{
    if any_hit_upto(s, j, i) {
        let iw = choose|iw: int|
            0 <= iw < i && is_sim_ball(#[trigger] s[iw]) && pair_overlap(s, iw, j)
                != OverlapType::Neither;
        assert(0 <= iw < i + 1);
        assert(any_hit_upto(s, j, i + 1));
    }
    if is_sim_ball(s[i]) && pair_overlap(s, i, j) != OverlapType::Neither {
        assert(any_hit_upto(s, j, i + 1));
    }
    if any_hit_upto(s, j, i + 1) && !(is_sim_ball(s[i]) && pair_overlap(s, i, j)
        != OverlapType::Neither) {
        let iw = choose|iw: int|
            0 <= iw < i + 1 && is_sim_ball(#[trigger] s[iw]) && pair_overlap(s, iw, j)
                != OverlapType::Neither;
        assert(iw != i);
        assert(any_hit_upto(s, j, i));
    }
}

/// Block deletion is exact: a frame removes a slot precisely when it is a
/// live collidable block that some ball overlaps after integration; every
/// other slot keeps its liveness, so a hit block (and only a hit block)
/// leaves the store.
pub proof fn lemma_block_deletion_exact(s: Seq<Slot>, dt: int, j: int)
    requires
        0 <= j < s.len(),
    ensures
        ball_step_spec(s, dt).len() == s.len(),
        ball_step_spec(s, dt)[j].alive == (s[j].alive && !block_deleted(
            integrated_seq(s, dt),
            j,
        )),
{
    let s1 = integrated_seq(s, dt);
    assert(s1[j].alive == s[j].alive);
    if block_deleted(s1, j) {
        assert(!ball_step_spec(s, dt)[j].alive);
    } else {
        assert(ball_step_spec(s, dt)[j] == bounced_slot(s1, j));
    }
}

/// The ball system.  The elapsed time since the previous frame comes in
/// from the frame clock; on the very first frame the caller skips the
/// system, since no elapsed time is defined yet.
pub struct BallSystem;

impl BallSystem {
    /// One frame of ball physics over the whole store.
    #[verifier::rlimit(100)]
    #[verifier::spinoff_prover]
    pub fn run(world: &mut World, dt: Fx)
        requires
            old(world).wf(),
            world_in_bounds(old(world)@),
            0 <= dt@ <= DT_LIMIT,
        ensures
            final(world).wf(),
            final(world)@ == ball_step_spec(old(world)@, dt@),
    {
        let ghost s0 = old(world)@;
        let ghost s1 = integrated_seq(s0, dt@);
        let n = world.len();

        // Phase one: move every ball and record its wall contacts.
        let mut bounce_h: Vec<bool> = Vec::new();
        let mut bounce_v: Vec<bool> = Vec::new();
        let mut lost: Vec<bool> = Vec::new();
        let mut i: usize = 0;
        while i < n
            invariant
                world.wf(),
                world_in_bounds(s0),
                0 <= dt@ <= DT_LIMIT,
                i <= n,
                n == s0.len(),
                world@.len() == n,
                s0 == old(world)@,
                s1 == integrated_seq(s0, dt@),
                forall|j: int| i <= j < n ==> world@[j] == s0[j],
                forall|j: int| 0 <= j < i ==> world@[j] == s1[j],
                bounce_h@.len() == i,
                bounce_v@.len() == i,
                lost@.len() == i,
                forall|j: int|
                    0 <= j < i ==> bounce_h@[j] == (is_sim_ball(#[trigger] s1[j])
                        && wall_bounce_h(s1[j])),
                forall|j: int|
                    0 <= j < i ==> bounce_v@[j] == (is_sim_ball(#[trigger] s1[j])
                        && wall_bounce_v(s1[j])),
                forall|j: int|
                    0 <= j < i ==> lost@[j] == (is_sim_ball(#[trigger] s1[j]) && ball_lost(
                        s1[j],
                    )),
            decreases n - i,
        {
            let s = world.slot_at(i);
            proof {
                lemma_integrated_bounds(s0[i as int], dt@);
            }
            if s.alive && s.ball.is_some() && s.transform.is_some() && s.hitbox.is_some() {
                let t = s.transform.unwrap();
                let v = s.ball.unwrap().velocity;
                let hb = s.hitbox.unwrap();
                proof {
                    lemma_fx_scaled_bounded(v.x@, dt@, VEL_LIMIT as int, DT_LIMIT as int);
                    lemma_fx_scaled_bounded(v.y@, dt@, VEL_LIMIT as int, DT_LIMIT as int);
                }
                let dvx = v.x.mul(dt);
                let dvy = v.y.mul(dt);
                let t2 = t.with_pos(Vec2::new(t.position.x.add(dvx), t.position.y.add(dvy)));
                world.set_transform_at(i, t2);
                proof {
                    assert(world@[i as int] == s1[i as int]);
                    lemma_world_corner_bounds(t2);
                }

                let c = t2.as_screen_point();
                let lower = t2.with_pos(Vec2::zero()).as_screen_point();
                let upper = t2.with_pos(
                    Vec2::new(Fx::from_milli(WORLD_WIDTH), Fx::from_milli(WORLD_HEIGHT)),
                ).as_screen_point();
                let hw = hb.top_right.x.sub(hb.bottom_left.x).half();
                let hh = hb.top_right.y.sub(hb.bottom_left.y).half();

                bounce_h.push(
                    c.x.raw - hw.raw < lower.x.raw || c.x.raw + hw.raw > upper.x.raw,
                );
                bounce_v.push(c.y.raw + hh.raw > upper.y.raw);
                lost.push(c.y.raw - hh.raw < lower.y.raw);
            } else {
                bounce_h.push(false);
                bounce_v.push(false);
                lost.push(false);
                proof {
                    assert(world@[i as int] == s1[i as int]);
                }
            }
            i = i + 1;
        }
        proof {
            assert(world@ =~= s1);
        }

        // Phase two: classify every collider against every ball, escalate
        // the pending bounces, and mark hit blocks.
        let mut to_delete: Vec<bool> = Vec::new();
        let mut j: usize = 0;
        while j < n
            invariant
                world.wf(),
                world_in_bounds(s0),
                0 <= dt@ <= DT_LIMIT,
                j <= n,
                n == s0.len(),
                world@ == s1,
                s0 == old(world)@,
                s1 == integrated_seq(s0, dt@),
                bounce_h@.len() == n,
                bounce_v@.len() == n,
                lost@.len() == n,
                to_delete@.len() == j,
                forall|k: int|
                    0 <= k < n ==> bounce_h@[k] == (is_sim_ball(#[trigger] s1[k]) && (
                    wall_bounce_h(s1[k]) || hit_x_upto(s1, k, j as int))),
                forall|k: int|
                    0 <= k < n ==> bounce_v@[k] == (is_sim_ball(#[trigger] s1[k]) && (
                    wall_bounce_v(s1[k]) || hit_y_upto(s1, k, j as int))),
                forall|k: int|
                    0 <= k < n ==> lost@[k] == (is_sim_ball(#[trigger] s1[k]) && ball_lost(
                        s1[k],
                    )),
                forall|jj: int|
                    0 <= jj < j ==> to_delete@[jj] == (is_collider(#[trigger] s1[jj])
                        && s1[jj].block && any_hit_upto(s1, jj, n as int)),
            decreases n - j,
        {
            let cs = world.slot_at(j);
            let mut hit_this: bool = false;
            if cs.alive && cs.collidable && cs.transform.is_some() && cs.hitbox.is_some() {
                let ct = cs.transform.unwrap();
                let chb = cs.hitbox.unwrap();
                proof {
                    lemma_integrated_bounds(s0[j as int], dt@);
                }
                let cc = ct.as_screen_point();

                let mut k: usize = 0;
                while k < n
                    invariant
                        world.wf(),
                        world_in_bounds(s0),
                        0 <= dt@ <= DT_LIMIT,
                        k <= n,
                        j < n,
                        n == s0.len(),
                        world@ == s1,
                        s0 == old(world)@,
                        s1 == integrated_seq(s0, dt@),
                        bounce_h@.len() == n,
                        bounce_v@.len() == n,
                        lost@.len() == n,
                        is_collider(s1[j as int]),
                        ct == s1[j as int].transform->Some_0,
                        chb == s1[j as int].hitbox->Some_0,
                        cc == screen_center(ct),
                        hit_this == any_hit_upto(s1, j as int, k as int),
                        forall|kk: int|
                            0 <= kk < n ==> bounce_h@[kk] == (is_sim_ball(#[trigger] s1[kk])
                                && (wall_bounce_h(s1[kk]) || hit_x_upto(s1, kk, j as int) || (
                            kk < k && (pair_overlap(s1, kk, j as int) == OverlapType::OnlyX
                                || pair_overlap(s1, kk, j as int) == OverlapType::Both)))),
                        forall|kk: int|
                            0 <= kk < n ==> bounce_v@[kk] == (is_sim_ball(#[trigger] s1[kk])
                                && (wall_bounce_v(s1[kk]) || hit_y_upto(s1, kk, j as int) || (
                            kk < k && (pair_overlap(s1, kk, j as int) == OverlapType::OnlyY
                                || pair_overlap(s1, kk, j as int) == OverlapType::Both)))),
                        forall|kk: int|
                            0 <= kk < n ==> lost@[kk] == (is_sim_ball(#[trigger] s1[kk])
                                && ball_lost(s1[kk])),
                    decreases n - k,
                {
                    let bs = world.slot_at(k);
                    if bs.alive && bs.ball.is_some() && bs.transform.is_some()
                        && bs.hitbox.is_some() {
                        let bt = bs.transform.unwrap();
                        let bhb = bs.hitbox.unwrap();
                        proof {
                            lemma_integrated_bounds(s0[k as int], dt@);
                            lemma_integrated_bounds(s0[j as int], dt@);
                        }
                        let bc = bt.as_screen_point();
                        let overlap = bhb.intersects(&chb, bc, cc);
                        proof {
                            assert(overlap == pair_overlap(s1, k as int, j as int));
                        }
                        match overlap {
                            OverlapType::OnlyX => {
                                bounce_h[k] = true;
                                hit_this = true;
                            },
                            OverlapType::OnlyY => {
                                bounce_v[k] = true;
                                hit_this = true;
                            },
                            OverlapType::Both => {
                                bounce_h[k] = true;
                                bounce_v[k] = true;
                                hit_this = true;
                            },
                            OverlapType::Neither => {},
                        }
                    }
                    proof {
                        lemma_any_hit_upto_step(s1, j as int, k as int);
                    }
                    k = k + 1;
                }
            } else {
                proof {
                    assert(!is_collider(s1[j as int]));
                }
            }
            proof {
                assert forall|kk: int| 0 <= kk < n implies hit_x_upto(s1, kk, j + 1) == (
                hit_x_upto(s1, kk, j as int) || (is_collider(s1[j as int]) && (pair_overlap(
                    s1,
                    kk,
                    j as int,
                ) == OverlapType::OnlyX || pair_overlap(s1, kk, j as int)
                    == OverlapType::Both))) by {
                    lemma_hit_x_upto_step(s1, kk, j as int);
                }
                assert forall|kk: int| 0 <= kk < n implies hit_y_upto(s1, kk, j + 1) == (
                hit_y_upto(s1, kk, j as int) || (is_collider(s1[j as int]) && (pair_overlap(
                    s1,
                    kk,
                    j as int,
                ) == OverlapType::OnlyY || pair_overlap(s1, kk, j as int)
                    == OverlapType::Both))) by {
                    lemma_hit_y_upto_step(s1, kk, j as int);
                }
            }
            let mark = hit_this && world.slot_at(j).block;
            to_delete.push(mark);
            j = j + 1;
        }

        // Phase three: apply the pending bounces to every ball's velocity.
        let mut i2: usize = 0;
        while i2 < n
            invariant
                world.wf(),
                world_in_bounds(s0),
                0 <= dt@ <= DT_LIMIT,
                i2 <= n,
                n == s0.len(),
                world@.len() == n,
                s0 == old(world)@,
                s1 == integrated_seq(s0, dt@),
                bounce_h@.len() == n,
                bounce_v@.len() == n,
                lost@.len() == n,
                to_delete@.len() == n,
                forall|k: int|
                    0 <= k < n ==> bounce_h@[k] == (is_sim_ball(#[trigger] s1[k]) && (
                    wall_bounce_h(s1[k]) || hit_x_upto(s1, k, n as int))),
                forall|k: int|
                    0 <= k < n ==> bounce_v@[k] == (is_sim_ball(#[trigger] s1[k]) && (
                    wall_bounce_v(s1[k]) || hit_y_upto(s1, k, n as int))),
                forall|k: int|
                    0 <= k < n ==> lost@[k] == (is_sim_ball(#[trigger] s1[k]) && ball_lost(
                        s1[k],
                    )),
                forall|jj: int|
                    0 <= jj < n ==> to_delete@[jj] == (is_collider(#[trigger] s1[jj])
                        && s1[jj].block && any_hit_upto(s1, jj, n as int)),
                forall|k: int| i2 <= k < n ==> world@[k] == s1[k],
                forall|k: int| 0 <= k < i2 ==> world@[k] == bounced_slot(s1, k),
            decreases n - i2,
        {
            let s = world.slot_at(i2);
            if s.alive && s.ball.is_some() && s.transform.is_some() && s.hitbox.is_some() {
                let v = s.ball.unwrap().velocity;
                proof {
                    lemma_integrated_bounds(s0[i2 as int], dt@);
                    assert(s1[i2 as int].ball == s0[i2 as int].ball);
                }
                let base = if lost[i2] {
                    Vec2::zero()
                } else {
                    v
                };
                let vx = if bounce_h[i2] {
                    base.x.neg()
                } else {
                    base.x
                };
                let vy = if bounce_v[i2] {
                    base.y.neg()
                } else {
                    base.y
                };
                world.set_ball_at(i2, Ball { velocity: Vec2::new(vx, vy) });
            }
            i2 = i2 + 1;
        }

        // Phase four: remove the blocks that were hit.
        let mut j2: usize = 0;
        while j2 < n
            invariant
                world.wf(),
                j2 <= n,
                n == s0.len(),
                world@.len() == n,
                s0 == old(world)@,
                s1 == integrated_seq(s0, dt@),
                to_delete@.len() == n,
                forall|jj: int|
                    0 <= jj < n ==> to_delete@[jj] == (is_collider(#[trigger] s1[jj])
                        && s1[jj].block && any_hit_upto(s1, jj, n as int)),
                forall|k: int| j2 <= k < n ==> world@[k] == bounced_slot(s1, k),
                forall|k: int| 0 <= k < j2 ==> world@[k] == stepped_slot(s1, k),
            decreases n - j2,
        {
            if to_delete[j2] {
                proof {
                    assert(world@[j2 as int] == bounced_slot(s1, j2 as int));
                    assert(is_collider(s1[j2 as int]) && s1[j2 as int].block && any_hit_upto(
                        s1,
                        j2 as int,
                        n as int,
                    ));
                    assert(world@[j2 as int].alive);
                    assert(world@[j2 as int].generation == s1[j2 as int].generation);
                }
                let e = world.entity_at(j2);
                let deleted = world.delete(e);
                proof {
                    assert(deleted);
                    assert(block_deleted(s1, j2 as int));
                }
            }
            j2 = j2 + 1;
        }

        proof {
            assert(world@ =~= ball_step_spec(s0, dt@));
        }
    }
}

} // verus!
