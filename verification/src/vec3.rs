//! Three-component vectors and points over fixed-point scalars.
//!
//! The mathematical model of a vector or point is [`V3`], a triple of
//! unbounded integers holding the raw scalar of each component; every
//! operation's contract states the resulting triple exactly.

use vstd::prelude::*;
use crate::fx::{
    Fx, FX_ONE, fx_add, fx_add_spec, fx_div, fx_div_spec, fx_div_int, fx_div_int_spec, fx_mul,
    fx_mul_spec, fx_neg, fx_neg_spec, fx_sqrt, fx_sub, fx_sub_spec, spec_fx_sqrt,
};

verus! {

/// A direction or color: three fixed-point components.
#[derive(Clone, Copy, PartialEq, Eq, Structural, Debug)]
pub struct Vec3 {
    pub x: Fx,
    pub y: Fx,
    pub z: Fx,
}

/// A position in space: three fixed-point coordinates.
#[derive(Clone, Copy, PartialEq, Eq, Structural, Debug)]
pub struct Point3 {
    pub x: Fx,
    pub y: Fx,
    pub z: Fx,
}

/// The model of a vector or point: its raw components as integers.
pub ghost struct V3 {
    pub x: int,
    pub y: int,
    pub z: int,
}

impl View for Vec3 {
    type V = V3;

    open spec fn view(&self) -> V3 {
        V3 { x: self.x as int, y: self.y as int, z: self.z as int }
    }
}

impl View for Point3 {
    type V = V3;

    open spec fn view(&self) -> V3 {
        V3 { x: self.x as int, y: self.y as int, z: self.z as int }
    }
}

/// Componentwise sum.
pub open spec fn v3_add(a: V3, b: V3) -> V3 {
    V3 { x: fx_add_spec(a.x, b.x), y: fx_add_spec(a.y, b.y), z: fx_add_spec(a.z, b.z) }
}

/// Componentwise difference.
pub open spec fn v3_sub(a: V3, b: V3) -> V3 {
    V3 { x: fx_sub_spec(a.x, b.x), y: fx_sub_spec(a.y, b.y), z: fx_sub_spec(a.z, b.z) }
}

/// Componentwise negation.
pub open spec fn v3_neg(a: V3) -> V3 {
    V3 { x: fx_neg_spec(a.x), y: fx_neg_spec(a.y), z: fx_neg_spec(a.z) }
}

/// A vector scaled by one scalar.
pub open spec fn v3_scale(a: V3, s: int) -> V3 {
    V3 { x: fx_mul_spec(a.x, s), y: fx_mul_spec(a.y, s), z: fx_mul_spec(a.z, s) }
}

/// Componentwise product, as colors attenuate.
pub open spec fn v3_cmul(a: V3, b: V3) -> V3 {
    V3 { x: fx_mul_spec(a.x, b.x), y: fx_mul_spec(a.y, b.y), z: fx_mul_spec(a.z, b.z) }
}

/// The inner product.
pub open spec fn v3_dot(a: V3, b: V3) -> int {
    fx_add_spec(
        fx_add_spec(fx_mul_spec(a.x, b.x), fx_mul_spec(a.y, b.y)),
        fx_mul_spec(a.z, b.z),
    )
}

/// The cross product.
pub open spec fn v3_cross(a: V3, b: V3) -> V3 {
    V3 {
        x: fx_sub_spec(fx_mul_spec(a.y, b.z), fx_mul_spec(a.z, b.y)),
        y: fx_sub_spec(fx_mul_spec(a.z, b.x), fx_mul_spec(a.x, b.z)),
        z: fx_sub_spec(fx_mul_spec(a.x, b.y), fx_mul_spec(a.y, b.x)),
    }
}

/// Linear interpolation `a + (b - a) * t`, componentwise.
pub open spec fn v3_lerp(a: V3, b: V3, t: int) -> V3 {
    v3_add(a, v3_scale(v3_sub(b, a), t))
}

/// The Euclidean length.
pub open spec fn v3_norm(a: V3) -> int {
    spec_fx_sqrt(v3_dot(a, a))
}

/// The unit vector of `a`, or the zero vector when the length is zero.
pub open spec fn v3_normalize(a: V3) -> V3 {
    let n = v3_norm(a);
    if n == 0 {
        V3 { x: 0, y: 0, z: 0 }
    } else {
        V3 { x: fx_div_spec(a.x, n), y: fx_div_spec(a.y, n), z: fx_div_spec(a.z, n) }
    }
}

/// The mean of the three components.
pub open spec fn v3_component_average(a: V3) -> int {
    fx_div_int_spec(fx_add_spec(fx_add_spec(a.x, a.y), a.z), 3)
}

impl Vec3 {
    /// A vector from its three components.
    pub fn new(x: Fx, y: Fx, z: Fx) -> (r: Vec3)
        ensures
            r@ == (V3 { x: x as int, y: y as int, z: z as int }),
    {
        Vec3 { x, y, z }
    }

    /// The zero vector.
    pub fn zeros() -> (r: Vec3)
        ensures
            r@ == (V3 { x: 0, y: 0, z: 0 }),
    {
        Vec3 { x: 0, y: 0, z: 0 }
    }

    /// The all-ones vector, white as a color.
    pub fn ones() -> (r: Vec3)
        ensures
            r@ == (V3 { x: FX_ONE as int, y: FX_ONE as int, z: FX_ONE as int }),
    {
        Vec3 { x: FX_ONE, y: FX_ONE, z: FX_ONE }
    }

    /// Componentwise sum.
    pub fn add(&self, o: &Vec3) -> (r: Vec3)
        ensures
            r@ == v3_add(self@, o@),
    {
        Vec3 { x: fx_add(self.x, o.x), y: fx_add(self.y, o.y), z: fx_add(self.z, o.z) }
    }

    /// Componentwise difference.
    pub fn sub(&self, o: &Vec3) -> (r: Vec3)
        ensures
            r@ == v3_sub(self@, o@),
    {
        Vec3 { x: fx_sub(self.x, o.x), y: fx_sub(self.y, o.y), z: fx_sub(self.z, o.z) }
    }

    /// Componentwise negation.
    pub fn neg(&self) -> (r: Vec3)
        ensures
            r@ == v3_neg(self@),
    {
        Vec3 { x: fx_neg(self.x), y: fx_neg(self.y), z: fx_neg(self.z) }
    }

    /// This vector scaled by one scalar.
    pub fn scale(&self, s: Fx) -> (r: Vec3)
        ensures
            r@ == v3_scale(self@, s as int),
    {
        Vec3 { x: fx_mul(self.x, s), y: fx_mul(self.y, s), z: fx_mul(self.z, s) }
    }

    /// Componentwise product.
    pub fn component_mul(&self, o: &Vec3) -> (r: Vec3)
        ensures
            r@ == v3_cmul(self@, o@),
    {
        Vec3 { x: fx_mul(self.x, o.x), y: fx_mul(self.y, o.y), z: fx_mul(self.z, o.z) }
    }

    /// The inner product.
    pub fn dot(&self, o: &Vec3) -> (r: Fx)
        ensures
            r as int == v3_dot(self@, o@),
    {
        fx_add(fx_add(fx_mul(self.x, o.x), fx_mul(self.y, o.y)), fx_mul(self.z, o.z))
    }

    /// The cross product.
    pub fn cross(&self, o: &Vec3) -> (r: Vec3)
        ensures
            r@ == v3_cross(self@, o@),
    {
        Vec3 {
            x: fx_sub(fx_mul(self.y, o.z), fx_mul(self.z, o.y)),
            y: fx_sub(fx_mul(self.z, o.x), fx_mul(self.x, o.z)),
            z: fx_sub(fx_mul(self.x, o.y), fx_mul(self.y, o.x)),
        }
    }

    /// Linear interpolation from this vector toward `o` by `t`.
    pub fn lerp(&self, o: &Vec3, t: Fx) -> (r: Vec3)
        ensures
            r@ == v3_lerp(self@, o@, t as int),
    {
        self.add(&o.sub(self).scale(t))
    }

    /// The Euclidean length.
    pub fn norm(&self) -> (r: Fx)
        ensures
            r as int == v3_norm(self@),
            r >= 0,
    {
        fx_sqrt(self.dot(self))
    }

    /// The unit vector in this direction, or zero when the length is zero.
    pub fn normalize(&self) -> (r: Vec3)
        ensures
            r@ == v3_normalize(self@),
    {
        let n = self.norm();
        if n == 0 {
            Vec3::zeros()
        } else {
            Vec3 { x: fx_div(self.x, n), y: fx_div(self.y, n), z: fx_div(self.z, n) }
        }
    }

    /// This vector divided componentwise by a plain positive integer.
    pub fn div_int(&self, d: i64) -> (r: Vec3)
        requires
            d > 0,
        ensures
            r@ == (V3 {
                x: fx_div_int_spec(self.x as int, d as int),
                y: fx_div_int_spec(self.y as int, d as int),
                z: fx_div_int_spec(self.z as int, d as int),
            }),
    {
        Vec3 {
            x: fx_div_int(self.x, d),
            y: fx_div_int(self.y, d),
            z: fx_div_int(self.z, d),
        }
    }

    /// The mean of the three components.
    pub fn component_average(&self) -> (r: Fx)
        ensures
            r as int == v3_component_average(self@),
    {
        fx_div_int(fx_add(fx_add(self.x, self.y), self.z), 3)
    }

    /// The grey vector whose components all equal this vector's mean.
    pub fn greyscale(&self) -> (r: Vec3)
        ensures
            r@ == (V3 {
                x: v3_component_average(self@),
                y: v3_component_average(self@),
                z: v3_component_average(self@),
            }),
    {
        let m = self.component_average();
        Vec3 { x: m, y: m, z: m }
    }
}

impl Point3 {
    /// A point from its three coordinates.
    pub fn new(x: Fx, y: Fx, z: Fx) -> (r: Point3)
        ensures
            r@ == (V3 { x: x as int, y: y as int, z: z as int }),
    {
        Point3 { x, y, z }
    }

    /// The vector from `o` to this point.
    pub fn sub(&self, o: &Point3) -> (r: Vec3)
        ensures
            r@ == v3_sub(self@, o@),
    {
        Vec3 { x: fx_sub(self.x, o.x), y: fx_sub(self.y, o.y), z: fx_sub(self.z, o.z) }
    }

    /// This point translated by a vector.
    pub fn add_vec(&self, v: &Vec3) -> (r: Point3)
        ensures
            r@ == v3_add(self@, v@),
    {
        Point3 { x: fx_add(self.x, v.x), y: fx_add(self.y, v.y), z: fx_add(self.z, v.z) }
    }
}


/// A non-negative vector with a full-unit first component has positive
/// length.
pub proof fn lemma_norm_positive_axis(a: V3)
    requires
        a.x >= FX_ONE,
        a.x <= i64::MAX,
        a.y >= 0,
        a.z >= 0,
    ensures
        v3_norm(a) > 0,
{
    assert(fx_mul_spec(a.x, a.x) >= 1) by (nonlinear_arith)
        requires
            FX_ONE <= a.x <= i64::MAX,
    ;
    assert(fx_mul_spec(a.y, a.y) >= 0) by (nonlinear_arith)
        requires
            a.y >= 0,
    ;
    assert(fx_mul_spec(a.z, a.z) >= 0) by (nonlinear_arith)
        requires
            a.z >= 0,
    ;
    lemma_norm_positive(a);
}

/// A vector whose self inner product reaches one raw step has positive
/// length.
pub proof fn lemma_norm_positive(a: V3)
    requires
        v3_dot(a, a) >= 1,
    ensures
        v3_norm(a) > 0,
{
    let d = v3_dot(a, a);
    crate::fx::lemma_isqrt_bounds(d * (FX_ONE as int));
    let r = crate::fx::spec_isqrt(d * (FX_ONE as int));
    assert(d * (FX_ONE as int) >= FX_ONE) by (nonlinear_arith)
        requires
            d >= 1,
    ;
    if r == 0 {
        assert((r + 1) * (r + 1) == 1) by (nonlinear_arith)
            requires
                r == 0,
        ;
    }
}

} // verus!
