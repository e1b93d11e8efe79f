//! The sphere primitive and its ray-intersection distance.

use vstd::prelude::*;
use crate::fx::{
    Fx, fx_add, fx_add_spec, fx_div, fx_div_spec, fx_mul, fx_mul_spec, fx_neg, fx_neg_spec,
    fx_sqrt, fx_sub, fx_sub_spec, spec_fx_sqrt,
};
use crate::material::{Material, MaterialV};
use crate::ray::Ray;
use crate::vec3::{Point3, V3, v3_dot, v3_sub};

verus! {

/// The distance bias below which a hit is discarded, avoiding
/// self-intersection with the surface the ray just left (about 1e-6).
pub const FX_EPSILON: i64 = 4295;

/// The scalar for four, the quadratic formula's constant.
pub const FX_FOUR: i64 = 0x4_0000_0000;

/// The model of a sphere: its identity, geometry and material.
pub ghost struct SphereV {
    pub index: int,
    pub center: V3,
    pub radius: int,
    pub material: MaterialV,
}

/// A sphere primitive; its index within the scene is its identity.
#[derive(Clone, Copy)]
pub struct Sphere {
    index: usize,
    center: Point3,
    radius: Fx,
    material: Material,
}

impl View for Sphere {
    type V = SphereV;

    closed spec fn view(&self) -> SphereV {
        SphereV {
            index: self.index as int,
            center: self.center@,
            radius: self.radius as int,
            material: self.material@,
        }
    }
}

impl PartialEq for Sphere {
    /// Spheres are compared by scene identity, not geometry.
    fn eq(&self, other: &Sphere) -> (r: bool) {
        self.index == other.index
    }
}

impl vstd::std_specs::cmp::PartialEqSpecImpl for Sphere {
    open spec fn obeys_eq_spec() -> bool {
        true
    }

    open spec fn eq_spec(&self, other: &Sphere) -> bool {
        self@.index == other@.index
    }
}

/// The discriminant of the ray-sphere quadratic.
pub open spec fn spec_sphere_discriminant(s: SphereV, origin: V3, direction: V3) -> int {
    let oc = v3_sub(origin, s.center);
    let a = v3_dot(direction, direction);
    let h = v3_dot(oc, direction);
    let b = fx_add_spec(h, h);
    let c = fx_sub_spec(v3_dot(oc, oc), fx_mul_spec(s.radius, s.radius));
    fx_sub_spec(fx_mul_spec(b, b), fx_mul_spec(fx_mul_spec(a, c), FX_FOUR as int))
}

/// The nearest intersection distance beyond the bias, if the ray hits.
#[verifier::opaque]
pub open spec fn spec_intersection_distance(s: SphereV, origin: V3, direction: V3) -> Option<
    int,
> {
    let oc = v3_sub(origin, s.center);
    let a = v3_dot(direction, direction);
    let h = v3_dot(oc, direction);
    let b = fx_add_spec(h, h);
    let disc = spec_sphere_discriminant(s, origin, direction);
    if disc < 0 {
        None
    } else {
        let sq = spec_fx_sqrt(disc);
        let two_a = fx_add_spec(a, a);
        let t1 = fx_div_spec(fx_sub_spec(fx_neg_spec(b), sq), two_a);
        let t2 = fx_div_spec(fx_add_spec(fx_neg_spec(b), sq), two_a);
        if t1 > FX_EPSILON {
            Some(t1)
        } else if t2 > FX_EPSILON {
            Some(t2)
        } else {
            None
        }
    }
}

impl Sphere {
    /// A sphere from its scene index, center, radius and material.
    pub fn new(index: usize, center: Point3, radius: Fx, material: Material) -> (s: Sphere)
        ensures
            s@ == (SphereV {
                index: index as int,
                center: center@,
                radius: radius as int,
                material: material@,
            }),
    {
        Sphere { index, center, radius, material }
    }

    /// The sphere's center.
    pub fn center(&self) -> (r: Point3)
        ensures
            r@ == self@.center,
    {
        self.center
    }

    /// The sphere's radius.
    pub fn radius(&self) -> (r: Fx)
        ensures
            r as int == self@.radius,
    {
        self.radius
    }

    /// The sphere's material.
    pub fn material(&self) -> (r: &Material)
        ensures
            r@ == self@.material,
    {
        &self.material
    }

    /// The nearest distance along `ray` at which this sphere is hit
    /// beyond the bias, by the quadratic formula; `None` when the ray
    /// misses.
    pub fn intersection_distance(&self, ray: &Ray) -> (r: Option<Fx>)
        ensures
            r is Some <==> spec_intersection_distance(self@, ray.origin@, ray.direction@)
                is Some,
            r is Some ==> r->0 as int == spec_intersection_distance(
                self@,
                ray.origin@,
                ray.direction@,
            )->0,
    {
        proof {
            reveal(spec_intersection_distance);
        }
        let oc = ray.origin.sub(&self.center);
        let a = ray.direction.dot(&ray.direction);
        let h = oc.dot(&ray.direction);
        let b = fx_add(h, h);
        let c = fx_sub(oc.dot(&oc), fx_mul(self.radius, self.radius));
        let disc = fx_sub(fx_mul(b, b), fx_mul(fx_mul(a, c), FX_FOUR));
        if disc < 0 {
            return None;
        }
        let sq = fx_sqrt(disc);
        let two_a = fx_add(a, a);
        let t1 = fx_div(fx_sub(fx_neg(b), sq), two_a);
        if t1 > FX_EPSILON {
            return Some(t1);
        }
        let t2 = fx_div(fx_add(fx_neg(b), sq), two_a);
        if t2 > FX_EPSILON {
            return Some(t2);
        }
        None
    }
}

} // verus!
