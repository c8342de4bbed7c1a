//! Positional state of an entity and its projection into screen space.

use vstd::prelude::*;

use crate::constants::{OFFSET_LIMIT, POS_LIMIT, SCALE_LIMIT};
use crate::math::{fx_scaled, mat_apply_fits, mat_apply_x, mat_apply_y, Fx, Mat, Vec2, FX_ONE};

verus! {

/// The transform's numbers are within the simulation's coordinate bounds,
/// so every screen-space projection of it stays representable.
pub open spec fn transform_in_bounds(t: Transform) -> bool {
    &&& -POS_LIMIT <= t.position.x@ <= POS_LIMIT
    &&& -POS_LIMIT <= t.position.y@ <= POS_LIMIT
    &&& -SCALE_LIMIT <= t.scale.x@ <= SCALE_LIMIT
    &&& -SCALE_LIMIT <= t.scale.y@ <= SCALE_LIMIT
    &&& -SCALE_LIMIT <= t.global.sx@ <= SCALE_LIMIT
    &&& -SCALE_LIMIT <= t.global.sy@ <= SCALE_LIMIT
    &&& -OFFSET_LIMIT <= t.global.tx@ <= OFFSET_LIMIT
    &&& -OFFSET_LIMIT <= t.global.ty@ <= OFFSET_LIMIT
}

/// The single world-to-screen transform shared by every entity, wrapped so
/// the store can hold it as a resource of its own.
pub struct GlobalTransform(pub Transform);

impl GlobalTransform {
    /// The world-to-screen transform for a surface of the given pixel
    /// size: the world's height fills the surface's height, and the world
    /// is centered horizontally.  Recomputed on every resize and
    /// propagated to the transforms that cache it.
    pub fn for_window(width: u32, height: u32) -> (g: GlobalTransform)
        ensures
            g.0.scale.x@ == height * 25,
            g.0.scale.y@ == height * 25,
            g.0.position.x@ == (width - height) * 500,
            g.0.position.y@ == 0,
    {
        // Pixels per world unit, in thousandths: the surface height over
        // the world's forty units.
        let ppu = Fx::from_milli((height as i64) * 25);
        let off = Fx::from_milli(((width as i64) - (height as i64)) * 500);
        GlobalTransform(
            Transform::default().with_pos(Vec2::new(off, Fx::zero())).with_scale(
                Vec2::new(ppu, ppu),
            ),
        )
    }
}

/// Where an entity sits and how it is stretched, together with a copy of
/// the global world-to-screen map.  Rotation is deliberately absent.
#[derive(Copy, Clone, Debug, PartialEq, Eq, Structural)]
pub struct Transform {
    pub position: Vec2,
    pub scale: Vec2,
    pub global: Mat,
}

impl Default for Transform {
    /// A transform at the origin with unit scale and the identity global
    /// map.
    fn default() -> (t: Transform)
        ensures
            t.position.x@ == 0,
            t.position.y@ == 0,
            t.scale.x@ == FX_ONE,
            t.scale.y@ == FX_ONE,
            t.global.sx@ == FX_ONE,
            t.global.sy@ == FX_ONE,
            t.global.tx@ == 0,
            t.global.ty@ == 0,
    {
        Transform {
            position: Vec2::zero(),
            scale: Vec2::new(Fx::from_milli(FX_ONE), Fx::from_milli(FX_ONE)),
            global: Mat::identity(),
        }
    }
}

impl Transform {
    /// The same transform moved to `pos`.
    pub fn with_pos(self, pos: Vec2) -> (r: Transform)
        ensures
            r.position == pos,
            r.scale == self.scale,
            r.global == self.global,
    {
        Transform { position: pos, ..self }
    }

    /// The same transform stretched by `scale`.
    pub fn with_scale(self, scale: Vec2) -> (r: Transform)
        ensures
            r.scale == scale,
            r.position == self.position,
            r.global == self.global,
    {
        Transform { scale, ..self }
    }

    pub fn set_x(&mut self, x: Fx)
        ensures
            final(self).position.x == x,
            final(self).position.y == old(self).position.y,
            final(self).scale == old(self).scale,
            final(self).global == old(self).global,
    {
        self.position.x = x;
    }

    pub fn set_y(&mut self, y: Fx)
        ensures
            final(self).position.y == y,
            final(self).position.x == old(self).position.x,
            final(self).scale == old(self).scale,
            final(self).global == old(self).global,
    {
        self.position.y = y;
    }

    /// Shift the position left by `x`.
    pub fn move_left(&mut self, x: Fx)
        requires
            i64::MIN <= old(self).position.x@ - x@ <= i64::MAX,
        ensures
            final(self).position.x@ == old(self).position.x@ - x@,
            final(self).position.y == old(self).position.y,
            final(self).scale == old(self).scale,
            final(self).global == old(self).global,
    {
        self.position.x = self.position.x.sub(x);
    }

    /// Shift the position right by `x`.
    pub fn move_right(&mut self, x: Fx)
        requires
            i64::MIN <= old(self).position.x@ + x@ <= i64::MAX,
        ensures
            final(self).position.x@ == old(self).position.x@ + x@,
            final(self).position.y == old(self).position.y,
            final(self).scale == old(self).scale,
            final(self).global == old(self).global,
    {
        self.position.x = self.position.x.add(x);
    }

    /// The local matrix: scale in local space, then translate to the
    /// position.  The position is therefore never scaled by the entity's
    /// own scale.
    pub fn matrix(&self) -> (m: Mat)
        ensures
            m.sx == self.scale.x,
            m.sy == self.scale.y,
            m.tx == self.position.x,
            m.ty == self.position.y,
    {
        Mat { sx: self.scale.x, sy: self.scale.y, tx: self.position.x, ty: self.position.y }
    }

    /// The point the entity occupies in world space.
    pub open spec fn world_point(self) -> Vec2 {
        self.position
    }

    /// The x-coordinate of the entity on the screen: its position pushed
    /// through the global map.
    pub open spec fn screen_x(self) -> int {
        mat_apply_x(self.global, self.position.x@)
    }

    /// The y-coordinate of the entity on the screen.
    pub open spec fn screen_y(self) -> int {
        mat_apply_y(self.global, self.position.y@)
    }

    /// The screen-space point stays representable.
    pub open spec fn screen_fits(self) -> bool {
        mat_apply_fits(self.global, self.position)
    }

    /// The entity's position in world space: the local matrix applied to
    /// the origin.
    pub fn as_world_point(&self) -> (p: Vec2)
        ensures
            p == self.world_point(),
    {
        let m = self.matrix();
        let p = m.apply(Vec2::zero());
        p
    }

    /// The entity's position on the screen: the global map applied to the
    /// world-space point.
    pub fn as_screen_point(&self) -> (p: Vec2)
        requires
            self.screen_fits(),
        ensures
            p.x@ == self.screen_x(),
            p.y@ == self.screen_y(),
    {
        let w = self.as_world_point();
        self.global.apply(w)
    }
}

/// Round trip of a placed transform: whatever the scale and the global map,
/// the world-space point of a transform positioned at `p` is `p` itself,
/// because an entity's own scale never applies to its position.
pub proof fn lemma_world_point_round_trip(t: Transform, p: Vec2)
    requires
        t.position == p,
    ensures
        t.world_point() == p,
{
}

} // verus!
