//! Fixed-point scalars, two-dimensional vectors and the affine maps used by
//! the transform hierarchy.
//!
//! Every coordinate, scale factor and velocity of the game is a [`Fx`]: a
//! signed count of thousandths of a unit.  Working on integer thousandths
//! keeps all of the simulation arithmetic exact enough for a tile-and-paddle
//! game while every operation carries a precise contract.

use vstd::prelude::*;

verus! {

/// Fixed-point subdivisions per unit: a value is stored as a signed count of
/// thousandths.
pub const FX_ONE: i64 = 1000;

/// A fixed-point scalar holding `raw` thousandths of a unit.
#[derive(Clone, Copy, Debug, PartialEq, Eq, Structural)]
pub struct Fx {
    pub raw: i64,
}

impl View for Fx {
    type V = int;

    open spec fn view(&self) -> int {
        self.raw as int
    }
}

/// The mathematical product of two fixed-point values, scaled back down to
/// thousandths.  `/` is Euclidean division, which rounds toward negative
/// infinity for the positive divisor used here.
pub open spec fn fx_scaled(a: int, b: int) -> int {
    (a * b) / (FX_ONE as int)
}

impl Fx {
    /// The scalar holding exactly `units` whole units.
    pub fn from_int(units: i32) -> (r: Fx)
        ensures
            r@ == units * FX_ONE,
    {
        Fx { raw: (units as i64) * FX_ONE }
    }

    /// The scalar holding `raw` thousandths of a unit.
    pub fn from_milli(raw: i64) -> (r: Fx)
        ensures
            r@ == raw,
    {
        Fx { raw }
    }

    /// The zero scalar.
    pub fn zero() -> (r: Fx)
        ensures
            r@ == 0,
    {
        Fx { raw: 0 }
    }

    pub fn add(self, o: Fx) -> (r: Fx)
        requires
            i64::MIN <= self@ + o@ <= i64::MAX,
        ensures
            r@ == self@ + o@,
    {
        Fx { raw: self.raw + o.raw }
    }

    pub fn sub(self, o: Fx) -> (r: Fx)
        requires
            i64::MIN <= self@ - o@ <= i64::MAX,
        ensures
            r@ == self@ - o@,
    {
        Fx { raw: self.raw - o.raw }
    }

    pub fn neg(self) -> (r: Fx)
        requires
            self@ != i64::MIN,
        ensures
            r@ == -self@,
    {
        Fx { raw: -self.raw }
    }

    /// Fixed-point multiplication: the product of the two values in
    /// thousandths, rounded toward negative infinity.
    pub fn mul(self, o: Fx) -> (r: Fx)
        requires
            i64::MIN <= fx_scaled(self@, o@) <= i64::MAX,
        ensures
            r@ == fx_scaled(self@, o@),
    {
        proof {
            assert((self.raw as int) * (o.raw as int) <= i128::MAX
                && i128::MIN <= (self.raw as int) * (o.raw as int)) by (nonlinear_arith)
                requires
                    i64::MIN <= self.raw <= i64::MAX,
                    i64::MIN <= o.raw <= i64::MAX,
            ;
        }
        let p: i128 = (self.raw as i128) * (o.raw as i128);
        match p.checked_div_euclid(FX_ONE as i128) {
            Some(v) => Fx { raw: v as i64 },
            None => {
                proof {
                    assert(false);
                }
                Fx { raw: 0 }
            },
        }
    }

    /// The smaller of the two scalars.
    pub fn min(self, o: Fx) -> (r: Fx)
        ensures
            r@ == vstd::math::min(self@, o@),
    {
        if self.raw <= o.raw {
            self
        } else {
            o
        }
    }

    /// The larger of the two scalars.
    pub fn max(self, o: Fx) -> (r: Fx)
        ensures
            r@ == vstd::math::max(self@, o@),
    {
        if self.raw >= o.raw {
            self
        } else {
            o
        }
    }

    /// The absolute value.
    pub fn abs(self) -> (r: Fx)
        requires
            self@ != i64::MIN,
        ensures
            r@ == vstd::math::abs(self@),
    {
        if self.raw < 0 {
            Fx { raw: -self.raw }
        } else {
            self
        }
    }

    /// Half of the scalar, rounded toward negative infinity.
    pub fn half(self) -> (r: Fx)
        ensures
            r@ == self@ / 2,
    {
        match self.raw.checked_div_euclid(2) {
            Some(v) => Fx { raw: v },
            None => {
                proof {
                    assert(false);
                }
                Fx { raw: 0 }
            },
        }
    }
}

/// A point or displacement in the plane, one fixed-point scalar per axis.
#[derive(Clone, Copy, Debug, PartialEq, Eq, Structural)]
pub struct Vec2 {
    pub x: Fx,
    pub y: Fx,
}

impl Vec2 {
    pub fn new(x: Fx, y: Fx) -> (r: Vec2)
        ensures
            r.x == x,
            r.y == y,
    {
        Vec2 { x, y }
    }

    pub fn zero() -> (r: Vec2)
        ensures
            r.x@ == 0,
            r.y@ == 0,
    {
        Vec2 { x: Fx { raw: 0 }, y: Fx { raw: 0 } }
    }

    /// Component-wise sum.
    pub fn add(self, o: Vec2) -> (r: Vec2)
        requires
            i64::MIN <= self.x@ + o.x@ <= i64::MAX,
            i64::MIN <= self.y@ + o.y@ <= i64::MAX,
        ensures
            r.x@ == self.x@ + o.x@,
            r.y@ == self.y@ + o.y@,
    {
        Vec2 { x: self.x.add(o.x), y: self.y.add(o.y) }
    }
}

/// An affine map of the plane without rotation: scale each axis, then
/// translate.  This is the shape of every matrix the game composes (a local
/// transform as well as the global world-to-screen transform), so the four
/// numbers stand in for a full matrix.
#[derive(Clone, Copy, Debug, PartialEq, Eq, Structural)]
pub struct Mat {
    pub sx: Fx,
    pub sy: Fx,
    pub tx: Fx,
    pub ty: Fx,
}

/// Where `m` sends a point with x-coordinate `px`.
pub open spec fn mat_apply_x(m: Mat, px: int) -> int {
    m.tx@ + fx_scaled(m.sx@, px)
}

/// Where `m` sends a point with y-coordinate `py`.
pub open spec fn mat_apply_y(m: Mat, py: int) -> int {
    m.ty@ + fx_scaled(m.sy@, py)
}

/// The image of `p` under `m` stays representable on both axes.
pub open spec fn mat_apply_fits(m: Mat, p: Vec2) -> bool {
    &&& i64::MIN <= fx_scaled(m.sx@, p.x@) <= i64::MAX
    &&& i64::MIN <= mat_apply_x(m, p.x@) <= i64::MAX
    &&& i64::MIN <= fx_scaled(m.sy@, p.y@) <= i64::MAX
    &&& i64::MIN <= mat_apply_y(m, p.y@) <= i64::MAX
}

impl Mat {
    /// The identity map.
    pub fn identity() -> (r: Mat)
        ensures
            r.sx@ == FX_ONE,
            r.sy@ == FX_ONE,
            r.tx@ == 0,
            r.ty@ == 0,
    {
        Mat {
            sx: Fx { raw: FX_ONE },
            sy: Fx { raw: FX_ONE },
            tx: Fx { raw: 0 },
            ty: Fx { raw: 0 },
        }
    }

    /// Apply the map to a point.
    pub fn apply(self, p: Vec2) -> (r: Vec2)
        requires
            mat_apply_fits(self, p),
        ensures
            r.x@ == mat_apply_x(self, p.x@),
            r.y@ == mat_apply_y(self, p.y@),
    {
        Vec2 { x: self.tx.add(self.sx.mul(p.x)), y: self.ty.add(self.sy.mul(p.y)) }
    }
}

/// Monotonicity of the fixed-point product: bounds on the mathematical
/// product carry over to the scaled result.
pub proof fn lemma_fx_scaled_range(a: int, b: int, lo: int, hi: int)
    requires
        lo <= a * b <= hi,
    ensures
        lo / (FX_ONE as int) <= fx_scaled(a, b) <= hi / (FX_ONE as int),
{
    vstd::arithmetic::div_mod::lemma_div_is_ordered(lo, a * b, FX_ONE as int);
    vstd::arithmetic::div_mod::lemma_div_is_ordered(a * b, hi, FX_ONE as int);
}

/// Bounds on both factors bound the fixed-point product.
pub proof fn lemma_fx_scaled_bounded(a: int, b: int, ba: int, bb: int)
    requires
        -ba <= a <= ba,
        -bb <= b <= bb,
        0 <= ba,
        0 <= bb,
    ensures
        -(ba * bb) / (FX_ONE as int) <= fx_scaled(a, b) <= (ba * bb) / (FX_ONE as int),
{
    assert(-(ba * bb) <= a * b <= ba * bb) by (nonlinear_arith)
        requires
            -ba <= a <= ba,
            -bb <= b <= bb,
            0 <= ba,
            0 <= bb,
    ;
    lemma_fx_scaled_range(a, b, -(ba * bb), ba * bb);
}

} // verus!
