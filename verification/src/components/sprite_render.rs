//! Rendering data of an entity: a textured quad over a sub-rectangle of a
//! texture atlas.  A sprite carries rendering data only; collision shapes
//! live in the separate hitbox component.

use vstd::prelude::*;

use crate::math::{fx_scaled, Fx, Mat, Vec2, FX_ONE};
use crate::types::{TextureInfo, Vertex};

verus! {

/// The texel coordinate of pixel `p` in an axis of `size` pixels, as a
/// fixed-point fraction of the atlas (thousandths, rounded down).
pub open spec fn uv_ratio(p: u32, size: u32) -> int {
    (p * FX_ONE) / (size as int)
}

/// A textured quad: the source texture, the quad's pixel dimensions, a
/// four-vertex fan over the unit square, and the offsets (in quad space)
/// that place the quad's origin relative to the entity's center.
#[derive(Copy, Clone, Debug)]
pub struct Sprite {
    pub texture: TextureInfo,
    pub offsets: Vec2,
    pub width: u32,
    pub height: u32,
    pub vertices: [Vertex; 4],
}

/// The sprite's geometry is within the simulation's bounds: pixel
/// dimensions and offsets small enough that its model matrix always stays
/// representable.
pub open spec fn sprite_in_bounds(s: Sprite) -> bool {
    &&& s.width <= crate::constants::SPRITE_DIM_LIMIT
    &&& s.height <= crate::constants::SPRITE_DIM_LIMIT
    &&& -crate::constants::SPRITE_OFFSET_LIMIT <= s.offsets.x@
        <= crate::constants::SPRITE_OFFSET_LIMIT
    &&& -crate::constants::SPRITE_OFFSET_LIMIT <= s.offsets.y@
        <= crate::constants::SPRITE_OFFSET_LIMIT
}

/// The model matrix of the sprite stays representable: the pixel dimensions
/// scaled by the offsets fit in a fixed-point scalar.
pub open spec fn model_matrix_fits(s: Sprite) -> bool {
    &&& -i64::MAX <= fx_scaled(s.width * FX_ONE, s.offsets.x@) <= i64::MAX
    &&& -i64::MAX <= fx_scaled(s.height * FX_ONE, s.offsets.y@) <= i64::MAX
}

impl Sprite {
    /// Build the sprite for the atlas rectangle from `top_left` to
    /// `bottom_right` (in pixels) of `texture`.  The four vertices fan
    /// around the unit square and sample the matching texel corners.
    pub fn new(texture: &TextureInfo, top_left: (u32, u32), bottom_right: (u32, u32)) -> (r:
        Sprite)
        requires
            top_left.0 <= bottom_right.0,
            top_left.1 <= bottom_right.1,
            texture.width > 0,
            texture.height > 0,
        ensures
            r.texture == *texture,
            r.width == bottom_right.0 - top_left.0,
            r.height == bottom_right.1 - top_left.1,
            r.offsets.x@ == 0,
            r.offsets.y@ == 0,
            r.vertices@[0].position.x@ == 0 && r.vertices@[0].position.y@ == 0,
            r.vertices@[1].position.x@ == FX_ONE && r.vertices@[1].position.y@ == 0,
            r.vertices@[2].position.x@ == FX_ONE && r.vertices@[2].position.y@ == FX_ONE,
            r.vertices@[3].position.x@ == 0 && r.vertices@[3].position.y@ == FX_ONE,
            r.vertices@[0].tex_coords.x@ == uv_ratio(top_left.0, texture.width),
            r.vertices@[0].tex_coords.y@ == uv_ratio(top_left.1, texture.height),
            r.vertices@[1].tex_coords.x@ == uv_ratio(bottom_right.0, texture.width),
            r.vertices@[1].tex_coords.y@ == uv_ratio(top_left.1, texture.height),
            r.vertices@[2].tex_coords.x@ == uv_ratio(bottom_right.0, texture.width),
            r.vertices@[2].tex_coords.y@ == uv_ratio(bottom_right.1, texture.height),
            r.vertices@[3].tex_coords.x@ == uv_ratio(top_left.0, texture.width),
            r.vertices@[3].tex_coords.y@ == uv_ratio(bottom_right.1, texture.height),
    {
        let width = bottom_right.0 - top_left.0;
        let height = bottom_right.1 - top_left.1;

        let u0 = uv_coord(top_left.0, texture.width);
        let u1 = uv_coord(bottom_right.0, texture.width);
        let v0 = uv_coord(top_left.1, texture.height);
        let v1 = uv_coord(bottom_right.1, texture.height);

        let one = Fx::from_milli(FX_ONE);
        let zero = Fx::zero();

        let vertices = [
            Vertex { position: Vec2::new(zero, zero), tex_coords: Vec2::new(u0, v0) },
            Vertex { position: Vec2::new(one, zero), tex_coords: Vec2::new(u1, v0) },
            Vertex { position: Vec2::new(one, one), tex_coords: Vec2::new(u1, v1) },
            Vertex { position: Vec2::new(zero, one), tex_coords: Vec2::new(u0, v1) },
        ];

        Sprite { texture: *texture, offsets: Vec2::zero(), width, height, vertices }
    }

    /// The quad's pixel dimensions.
    pub fn dimensions(&self) -> (r: (u32, u32))
        ensures
            r.0 == self.width,
            r.1 == self.height,
    {
        (self.width, self.height)
    }

    /// The four-vertex fan the renderer uploads.
    pub fn get_vertices(&self) -> (r: &[Vertex; 4])
        ensures
            r@ == self.vertices@,
    {
        &self.vertices
    }

    /// The model matrix: translate by the negated offsets (in quad space),
    /// then scale by the pixel width and the negated pixel height, so the
    /// quad renders y-down around the entity's center.
    pub fn get_model_matrix(&self) -> (m: Mat)
        requires
            model_matrix_fits(*self),
        ensures
            m.sx@ == self.width * FX_ONE,
            m.sy@ == -(self.height * FX_ONE),
            m.tx@ == -fx_scaled(self.width * FX_ONE, self.offsets.x@),
            m.ty@ == fx_scaled(self.height * FX_ONE, self.offsets.y@),
    {
        let w = Fx::from_milli((self.width as i64) * FX_ONE);
        let h = Fx::from_milli((self.height as i64) * FX_ONE);
        Mat {
            sx: w,
            sy: h.neg(),
            tx: w.mul(self.offsets.x).neg(),
            ty: h.mul(self.offsets.y),
        }
    }
}

/// The texel coordinate of pixel `p` in an axis of `size` pixels.
fn uv_coord(p: u32, size: u32) -> (r: Fx)
    requires
        size > 0,
    ensures
        r@ == uv_ratio(p, size),
{
    Fx { raw: (((p as u64) * (FX_ONE as u64)) / (size as u64)) as i64 }
}

} // verus!
