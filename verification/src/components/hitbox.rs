//! Axis-aligned bounding boxes and the overlap classifier that picks the
//! bounce axis.

use vstd::math::abs;
use vstd::math::min;
use vstd::prelude::*;

use crate::math::{Fx, Vec2, FX_ONE};
use crate::types::OverlapType;

verus! {

/// Edge-on contact is recognised while the penetration depth on an axis is
/// below one whole unit.  The tolerance is deliberately a single fixed
/// choice: a touch within one unit of an edge classifies as contact on that
/// axis, an overlap deeper than that on both axes classifies as `Neither`.
pub const OVERLAP_TOLERANCE: i64 = FX_ONE;

/// Corner coordinates stay below this bound, so every difference the
/// classifier forms fits in a fixed-point scalar.
pub const COORD_LIMIT: i64 = 1_000_000_000_000_000_000;

/// The box's corner offsets are within the simulation's extent bound.
pub open spec fn hitbox_in_bounds(h: Hitbox) -> bool {
    &&& -crate::constants::EXT_LIMIT <= h.bottom_left.x@ <= crate::constants::EXT_LIMIT
    &&& -crate::constants::EXT_LIMIT <= h.bottom_left.y@ <= crate::constants::EXT_LIMIT
    &&& -crate::constants::EXT_LIMIT <= h.top_right.x@ <= crate::constants::EXT_LIMIT
    &&& -crate::constants::EXT_LIMIT <= h.top_right.y@ <= crate::constants::EXT_LIMIT
}

/// An axis-aligned rectangle in the entity's local space, stored as the
/// offsets of its two corners from the entity's center point.
#[derive(Copy, Clone, Debug, PartialEq, Eq, Structural)]
pub struct Hitbox {
    pub bottom_left: Vec2,
    pub top_right: Vec2,
}

impl Default for Hitbox {
    /// The degenerate box sitting exactly on its center.
    fn default() -> (r: Hitbox)
        ensures
            r.bottom_left.x@ == 0,
            r.bottom_left.y@ == 0,
            r.top_right.x@ == 0,
            r.top_right.y@ == 0,
    {
        Hitbox { bottom_left: Vec2::zero(), top_right: Vec2::zero() }
    }
}

/// Absolute corner coordinates of `h` centered at `c`, as
/// `(low x, low y, high x, high y)`.
pub open spec fn corners_of(h: Hitbox, c: Vec2) -> (int, int, int, int) {
    (
        c.x@ + h.bottom_left.x@,
        c.y@ + h.bottom_left.y@,
        c.x@ + h.top_right.x@,
        c.y@ + h.top_right.y@,
    )
}

/// The classification of two boxes given by their absolute corners
/// `(low x, low y, high x, high y)`.  Boxes apart on either axis do not
/// overlap.  Otherwise the penetration depth on an axis is the smaller of
/// the two distances between a low edge of one box and the high edge of the
/// other; contact counts on an axis when that depth is below the tolerance.
pub open spec fn overlap_class(a: (int, int, int, int), b: (int, int, int, int)) -> OverlapType {
    if a.0 > b.2 || b.0 > a.2 {
        OverlapType::Neither
    } else if a.1 > b.3 || b.1 > a.3 {
        OverlapType::Neither
    } else {
        let xo = min(abs(a.0 - b.2) as int, abs(b.0 - a.2) as int);
        let yo = min(abs(a.1 - b.3) as int, abs(b.1 - a.3) as int);
        if xo < OVERLAP_TOLERANCE && yo >= OVERLAP_TOLERANCE {
            OverlapType::OnlyX
        } else if xo >= OVERLAP_TOLERANCE && yo < OVERLAP_TOLERANCE {
            OverlapType::OnlyY
        } else if xo < OVERLAP_TOLERANCE && yo < OVERLAP_TOLERANCE {
            OverlapType::Both
        } else {
            OverlapType::Neither
        }
    }
}

/// The classification of `a` centered at `ca` against `b` centered at `cb`.
pub open spec fn classify_at(a: Hitbox, ca: Vec2, b: Hitbox, cb: Vec2) -> OverlapType {
    overlap_class(corners_of(a, ca), corners_of(b, cb))
}

/// All four corner coordinates of `h` centered at `c` are within
/// `COORD_LIMIT`.
pub open spec fn rect_bounded(h: Hitbox, c: Vec2) -> bool {
    let cs = corners_of(h, c);
    &&& -COORD_LIMIT <= cs.0 <= COORD_LIMIT
    &&& -COORD_LIMIT <= cs.1 <= COORD_LIMIT
    &&& -COORD_LIMIT <= cs.2 <= COORD_LIMIT
    &&& -COORD_LIMIT <= cs.3 <= COORD_LIMIT
}

impl Hitbox {
    pub fn new(bottom_left: Vec2, top_right: Vec2) -> (r: Hitbox)
        ensures
            r.bottom_left == bottom_left,
            r.top_right == top_right,
    {
        Hitbox { bottom_left, top_right }
    }

    /// The absolute corners of the box centered at `center`.
    pub fn corners(&self, center: Vec2) -> (r: (Vec2, Vec2))
        requires
            i64::MIN <= center.x@ + self.bottom_left.x@ <= i64::MAX,
            i64::MIN <= center.y@ + self.bottom_left.y@ <= i64::MAX,
            i64::MIN <= center.x@ + self.top_right.x@ <= i64::MAX,
            i64::MIN <= center.y@ + self.top_right.y@ <= i64::MAX,
        ensures
            r.0.x@ == corners_of(*self, center).0,
            r.0.y@ == corners_of(*self, center).1,
            r.1.x@ == corners_of(*self, center).2,
            r.1.y@ == corners_of(*self, center).3,
    {
        (center.add(self.bottom_left), center.add(self.top_right))
    }

    /// Classify how this box, centered at `center`, overlaps `other`,
    /// centered at `other_center`.
    pub fn intersects(&self, other: &Hitbox, center: Vec2, other_center: Vec2) -> (r:
        OverlapType)
        requires
            rect_bounded(*self, center),
            rect_bounded(*other, other_center),
        ensures
            r == classify_at(*self, center, *other, other_center),
    {
        let (a_lo, a_hi) = self.corners(center);
        let (b_lo, b_hi) = other.corners(other_center);

        if a_lo.x.raw > b_hi.x.raw || b_lo.x.raw > a_hi.x.raw {
            return OverlapType::Neither;
        }
        if a_lo.y.raw > b_hi.y.raw || b_lo.y.raw > a_hi.y.raw {
            return OverlapType::Neither;
        }

        let x_overlap = a_lo.x.sub(b_hi.x).abs().min(b_lo.x.sub(a_hi.x).abs());
        let y_overlap = a_lo.y.sub(b_hi.y).abs().min(b_lo.y.sub(a_hi.y).abs());

        match (x_overlap.raw < OVERLAP_TOLERANCE, y_overlap.raw < OVERLAP_TOLERANCE) {
            (true, false) => OverlapType::OnlyX,
            (false, true) => OverlapType::OnlyY,
            (true, true) => OverlapType::Both,
            (false, false) => OverlapType::Neither,
        }
    }
}

/// Symmetry of the classifier: swapping the two boxes never changes the
/// classification, so both parties to a contact agree on the bounce axis.
pub proof fn lemma_classify_symmetric(a: Hitbox, ca: Vec2, b: Hitbox, cb: Vec2)
    ensures
        classify_at(a, ca, b, cb) == classify_at(b, cb, a, ca),
{
}

/// Separation on the x-axis: when the high x-edge of `a` lies strictly left
/// of the low x-edge of `b`, the boxes do not overlap, wherever they sit on
/// the y-axis.
pub proof fn lemma_separated_is_no_overlap(a: Hitbox, ca: Vec2, b: Hitbox, cb: Vec2)
    requires
        ca.x@ + a.top_right.x@ < cb.x@ + b.bottom_left.x@,
    ensures
        classify_at(a, ca, b, cb) == OverlapType::Neither,
{
}

/// Corner touch: a copy of a box shifted diagonally by exactly its own
/// width and height meets the original at a single corner, which counts as
/// contact on both axes.
pub proof fn lemma_corner_touch_is_both(h: Hitbox, ca: Vec2, cb: Vec2)
    requires
        h.bottom_left.x@ <= h.top_right.x@,
        h.bottom_left.y@ <= h.top_right.y@,
        cb.x@ == ca.x@ + (h.top_right.x@ - h.bottom_left.x@),
        cb.y@ == ca.y@ + (h.top_right.y@ - h.bottom_left.y@),
    ensures
        classify_at(h, ca, h, cb) == OverlapType::Both,
{
}

/// Edge touch along x: a copy of a box shifted horizontally by exactly its
/// own width touches the original edge-on, which classifies as `OnlyX`
/// whenever the box is at least one tolerance tall.
pub proof fn lemma_width_offset_is_only_x(h: Hitbox, ca: Vec2, cb: Vec2)
    requires
        h.bottom_left.x@ <= h.top_right.x@,
        h.top_right.y@ - h.bottom_left.y@ >= OVERLAP_TOLERANCE,
        cb.x@ == ca.x@ + (h.top_right.x@ - h.bottom_left.x@),
        cb.y@ == ca.y@,
    ensures
        classify_at(h, ca, h, cb) == OverlapType::OnlyX,
{
}

/// Edge touch along y: the symmetric case, a copy shifted vertically by
/// exactly its own height classifies as `OnlyY` whenever the box is at
/// least one tolerance wide.
pub proof fn lemma_height_offset_is_only_y(h: Hitbox, ca: Vec2, cb: Vec2)
    requires
        h.bottom_left.y@ <= h.top_right.y@,
        h.top_right.x@ - h.bottom_left.x@ >= OVERLAP_TOLERANCE,
        cb.y@ == ca.y@ + (h.top_right.y@ - h.bottom_left.y@),
        cb.x@ == ca.x@,
    ensures
        classify_at(h, ca, h, cb) == OverlapType::OnlyY,
{
}

} // verus!
