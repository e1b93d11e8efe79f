//! An orthonormal basis aligned with a surface normal, for moving sampled
//! directions from the local frame into world space.

use vstd::prelude::*;
use crate::fx::FX_ONE;
use crate::vec3::{V3, Vec3, v3_add, v3_cross, v3_normalize, v3_scale};

verus! {

/// The scalar closest to 0.7, the axis-selection threshold.
pub const ONB_AXIS_LIMIT: i64 = 3006477107;

/// The model of a basis: its three axis vectors.
pub ghost struct OnbV {
    pub u: V3,
    pub v: V3,
    pub w: V3,
}

/// The basis derived from a normal: the third axis follows the normal and
/// the first two are unit vectors at right angles to it, built against a
/// fixed world axis chosen away from the normal.
pub open spec fn spec_onb_from_normal(n: V3) -> OnbV {
    let w = v3_normalize(n);
    let orth = if n.x > ONB_AXIS_LIMIT {
        V3 { x: 0, y: FX_ONE as int, z: 0 }
    } else {
        V3 { x: FX_ONE as int, y: 0, z: 0 }
    };
    let v = v3_normalize(v3_cross(w, orth));
    let u = v3_normalize(v3_cross(w, v));
    OnbV { u, v, w }
}

/// The world vector of local coordinates `a` in the basis `b`.
pub open spec fn spec_onb_local(b: OnbV, a: V3) -> V3 {
    v3_add(v3_add(v3_scale(b.u, a.x), v3_scale(b.v, a.y)), v3_scale(b.w, a.z))
}

/// An orthonormal basis: two tangent axes and the normal-aligned axis.
pub struct OrthonormalBasis(Vec3, Vec3, Vec3);

impl View for OrthonormalBasis {
    type V = OnbV;

    closed spec fn view(&self) -> OnbV {
        OnbV { u: self.0@, v: self.1@, w: self.2@ }
    }
}

impl OrthonormalBasis {
    /// The basis whose third axis follows the given normal.
    pub fn from_normal(n: Vec3) -> (r: OrthonormalBasis)
        ensures
            r@ == spec_onb_from_normal(n@),
    {
        let w = n.normalize();
        let w_orth = if n.x > ONB_AXIS_LIMIT {
            Vec3::new(0, FX_ONE, 0)
        } else {
            Vec3::new(FX_ONE, 0, 0)
        };
        let v = w.cross(&w_orth).normalize();
        let u = w.cross(&v).normalize();
        OrthonormalBasis(u, v, w)
    }

    /// The first tangent axis.
    fn u(&self) -> (r: Vec3)
        ensures
            r@ == self@.u,
    {
        self.0
    }

    /// The second tangent axis.
    fn v(&self) -> (r: Vec3)
        ensures
            r@ == self@.v,
    {
        self.1
    }

    /// The normal-aligned axis.
    fn w(&self) -> (r: Vec3)
        ensures
            r@ == self@.w,
    {
        self.2
    }

    /// Carry local coordinates `a` into world space.
    pub fn local(&self, a: Vec3) -> (r: Vec3)
        ensures
            r@ == spec_onb_local(self@, a@),
    {
        self.u().scale(a.x).add(&self.v().scale(a.y)).add(&self.w().scale(a.z))
    }
}

} // verus!
