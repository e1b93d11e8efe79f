//! Rays and the direction-sampling extensions of [`Vec3`].

use vstd::prelude::*;
use crate::fx::{
    Fx, FX_ONE, fx_add, fx_add_spec, fx_mul, fx_mul_spec, fx_sub, fx_sub_spec, fx_sqrt,
    spec_fx_sqrt,
};
use crate::trig::{
    FX_TWO_PI, fx_asin, fx_cos, fx_sin, spec_asin, spec_cos, spec_sin,
};
use crate::rng::Rng;
use crate::vec3::{Point3, V3, Vec3, v3_add, v3_cross, v3_dot, v3_normalize, v3_scale, v3_sub};

verus! {

/// A half line: where a light path is and where it is headed.
#[derive(Clone, Copy)]
pub struct Ray {
    pub origin: Point3,
    pub direction: Vec3,
}

/// The unit vector of the spherical angles `theta` (azimuth) and `phi`
/// (elevation).
pub open spec fn spec_from_spherical(theta: int, phi: int) -> V3 {
    V3 {
        x: fx_mul_spec(spec_cos(theta), spec_cos(phi)),
        y: spec_sin(phi),
        z: fx_mul_spec(spec_sin(theta), spec_cos(phi)),
    }
}

/// The direction drawn on the unit sphere from two unit draws.
pub open spec fn spec_sphere_direction(u: int, v: int) -> V3 {
    spec_from_spherical(
        fx_mul_spec(u, FX_TWO_PI as int),
        spec_asin(fx_sub_spec(fx_add_spec(v, v), FX_ONE as int)),
    )
}

/// The cosine-weighted hemisphere sample of two unit draws, in the local
/// frame whose third axis is the surface normal: the standard unit sample
/// `(cos(phi) sqrt(v), sin(phi) sqrt(v), sqrt(1 - v))`.
pub open spec fn spec_cos_hemisphere(u: int, v: int) -> V3 {
    let phi = fx_mul_spec(u, FX_TWO_PI as int);
    let m = spec_fx_sqrt(v);
    V3 {
        x: fx_mul_spec(spec_cos(phi), m),
        y: fx_mul_spec(spec_sin(phi), m),
        z: spec_fx_sqrt(fx_sub_spec(FX_ONE as int, v)),
    }
}

/// The refraction discriminant of Snell's law: negative on total internal
/// reflection.
pub open spec fn spec_refraction_k(d: V3, normal: V3, ratio: int) -> int {
    let n_dot_i = v3_dot(normal, d);
    fx_sub_spec(
        FX_ONE as int,
        fx_mul_spec(
            fx_mul_spec(ratio, ratio),
            fx_sub_spec(FX_ONE as int, fx_mul_spec(n_dot_i, n_dot_i)),
        ),
    )
}

/// The refracted direction when the discriminant is non-negative.
pub open spec fn spec_refracted(d: V3, normal: V3, ratio: int) -> V3 {
    let n_dot_i = v3_dot(normal, d);
    let k = spec_refraction_k(d, normal, ratio);
    let offset = v3_scale(normal, fx_add_spec(fx_mul_spec(ratio, n_dot_i), spec_fx_sqrt(k)));
    v3_normalize(v3_sub(v3_scale(d, ratio), offset))
}

/// The direction drawn in a cone around `direction` whose half angle is
/// `width` times the inverse sine of the first draw.
pub open spec fn spec_cone_direction(
    direction: V3,
    width: int,
    u: int,
    v: int,
    q: V3,
) -> V3 {
    let theta = fx_mul_spec(width, spec_asin(u));
    let m1 = spec_sin(theta);
    let m2 = spec_cos(theta);
    let a = fx_mul_spec(v, FX_TWO_PI as int);
    let s = v3_cross(direction, q);
    let t = v3_cross(direction, s);
    v3_normalize(
        v3_add(
            v3_add(
                v3_scale(s, fx_mul_spec(m1, spec_cos(a))),
                v3_scale(t, fx_mul_spec(m1, spec_sin(a))),
            ),
            v3_scale(direction, m2),
        ),
    )
}

impl Vec3 {
    /// The unit vector of the given spherical angles.
    pub fn from_spherical(theta: Fx, phi: Fx) -> (r: Vec3)
        ensures
            r@ == spec_from_spherical(theta as int, phi as int),
    {
        let cos_phi = fx_cos(phi);
        Vec3::new(fx_mul(fx_cos(theta), cos_phi), fx_sin(phi), fx_mul(fx_sin(theta), cos_phi))
    }

    /// A direction drawn uniformly on the unit sphere.
    pub fn random_in_sphere(rng: &mut Rng) -> (r: Vec3)
        ensures
            exists|u: int, v: int|
                0 <= u < FX_ONE && 0 <= v < FX_ONE && r@ == spec_sphere_direction(u, v),
    {
        let u = rng.next_unit();
        let v = rng.next_unit();
        let r = Vec3::from_spherical(
            fx_mul(u, FX_TWO_PI),
            fx_asin(fx_sub(fx_add(v, v), FX_ONE)),
        );
        proof {
            assert(r@ == spec_sphere_direction(u as int, v as int));
        }
        r
    }

    /// The cosine-weighted hemisphere sample of two unit draws, in the
    /// local frame whose third axis is the surface normal.
    pub fn random_in_cos_hemisphere(u: Fx, v: Fx) -> (r: Vec3)
        ensures
            r@ == spec_cos_hemisphere(u as int, v as int),
    {
        let phi = fx_mul(u, FX_TWO_PI);
        let m = fx_sqrt(v);
        Vec3::new(
            fx_mul(fx_cos(phi), m),
            fx_mul(fx_sin(phi), m),
            fx_sqrt(fx_sub(FX_ONE, v)),
        )
    }

    /// A direction perturbed inside a cone around `direction`: the
    /// cone's half angle is `width * asin(u)`, so a wider `width` or a
    /// larger draw tilts the sample further off axis.
    pub fn random_in_cone(direction: &Vec3, width: Fx, u: Fx, v: Fx, rng: &mut Rng) -> (r: Vec3)
        ensures
            exists|q: V3|
                r@ == spec_cone_direction(direction@, width as int, u as int, v as int, q),
    {
        let theta = fx_mul(width, fx_asin(u));
        let m1 = fx_sin(theta);
        let m2 = fx_cos(theta);
        let a = fx_mul(v, FX_TWO_PI);
        let q = Vec3::random_in_sphere(rng);
        let s = direction.cross(&q);
        let t = direction.cross(&s);
        let d = s.scale(fx_mul(m1, fx_cos(a)))
            .add(&t.scale(fx_mul(m1, fx_sin(a))))
            .add(&direction.scale(m2));
        let r = d.normalize();
        proof {
            assert(r@ == spec_cone_direction(
                direction@,
                width as int,
                u as int,
                v as int,
                q@,
            ));
        }
        r
    }

    /// The direction after crossing between media of the two refraction
    /// indices, by Snell's law; `None` on total internal reflection.
    pub fn refraction(&self, normal: &Vec3, exterior_index: Fx, interior_index: Fx) -> (r: Option<
        Vec3,
    >)
        ensures
            r is Some <==> spec_refraction_k(
                self@,
                normal@,
                crate::fx::fx_div_spec(exterior_index as int, interior_index as int),
            ) >= 0,
            r is Some ==> r->Some_0@ == spec_refracted(
                self@,
                normal@,
                crate::fx::fx_div_spec(exterior_index as int, interior_index as int),
            ),
    {
        let ratio = crate::fx::fx_div(exterior_index, interior_index);
        let n_dot_i = normal.dot(self);
        let k = fx_sub(
            FX_ONE,
            fx_mul(fx_mul(ratio, ratio), fx_sub(FX_ONE, fx_mul(n_dot_i, n_dot_i))),
        );
        if k < 0 {
            return None;
        }
        let offset = normal.scale(fx_add(fx_mul(ratio, n_dot_i), fx_sqrt(k)));
        Some(self.scale(ratio).sub(&offset).normalize())
    }
}

} // verus!
