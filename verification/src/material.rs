//! Materials and the stochastic scattering state machine.
//!
//! A scattering call selects exactly one event — specular reflection,
//! refraction, absorption, or diffuse bouncing with next-event light
//! sampling — through a filtered probability test driven by a single unit
//! draw, and returns the outgoing direction together with the throughput
//! multiplier of the event.

use vstd::prelude::*;
use crate::fx::{
    Fx, FX_ONE, fx_add, fx_add_spec, fx_min, fx_mul, fx_mul_spec, fx_sub, fx_sub_spec,
};
use crate::rng::Rng;
use crate::vec3::{
    Point3, V3, Vec3, v3_add, v3_cmul, v3_dot, v3_lerp, v3_norm, v3_scale, v3_sub,
};

verus! {

/// A point on a surface: its outward normal and its position.
#[derive(Clone, Copy)]
pub struct SurfacePoint {
    pub n: Vec3,
    pub p: Point3,
}

/// One bounce's view of a surface: the direction back toward the viewer
/// and the surface point.
#[derive(Clone, Copy)]
pub struct SurfaceInteraction {
    pub wo: Vec3,
    pub surface: SurfacePoint,
}

/// A scattering result: the outgoing direction and the throughput
/// multiplier picked up at this bounce.
pub struct BSDF {
    pub direction: Vec3,
    pub signal: Vec3,
}

/// The model of a material: its raw fields as integers.
pub ghost struct MaterialV {
    pub color: V3,
    pub refraction: int,
    pub transparency: int,
    pub light: V3,
    pub frensel: V3,
    pub metal: int,
    pub gloss: int,
}

/// A surface's optical description.
#[derive(Clone, Copy)]
pub struct Material {
    color: Vec3,
    refraction: Fx,
    transparency: Fx,
    light: Vec3,
    frensel: Vec3,
    metal: Fx,
    gloss: Fx,
}

impl View for Material {
    type V = MaterialV;

    closed spec fn view(&self) -> MaterialV {
        MaterialV {
            color: self.color@,
            refraction: self.refraction as int,
            transparency: self.transparency as int,
            light: self.light@,
            frensel: self.frensel@,
            metal: self.metal as int,
            gloss: self.gloss as int,
        }
    }
}

/// All three components lie in `[0, 1]`.
pub open spec fn v3_in_unit(a: V3) -> bool {
    &&& 0 <= a.x <= FX_ONE
    &&& 0 <= a.y <= FX_ONE
    &&& 0 <= a.z <= FX_ONE
}

/// All three components are non-negative.
pub open spec fn v3_non_negative(a: V3) -> bool {
    &&& a.x >= 0
    &&& a.y >= 0
    &&& a.z >= 0
}

/// A physically valid material: colors and coefficients inside the unit
/// ranges and a positive refraction index.
pub open spec fn spec_valid_material(m: MaterialV) -> bool {
    &&& v3_in_unit(m.color)
    &&& v3_in_unit(m.frensel)
    &&& 0 <= m.transparency <= FX_ONE
    &&& 0 <= m.metal <= FX_ONE
    &&& 0 <= m.gloss <= FX_ONE
    &&& m.refraction > 0
    &&& v3_non_negative(m.light)
}

/// Schlick's approximation of the Fresnel reflectance at the incidence
/// angle whose cosine is `wo . n`.
pub open spec fn spec_schlick(m: MaterialV, wo: V3, n: V3) -> V3 {
    let cos_incident = v3_dot(wo, n);
    let p = fx_sub_spec(FX_ONE as int, cos_incident);
    let p2 = fx_mul_spec(p, p);
    let p4 = fx_mul_spec(p2, p2);
    let p5 = fx_mul_spec(p4, p);
    v3_add(
        m.frensel,
        v3_scale(
            v3_sub(V3 { x: FX_ONE as int, y: FX_ONE as int, z: FX_ONE as int }, m.frensel),
            p5,
        ),
    )
}

/// The reflection signal: white tinted toward the Fresnel color by the
/// metalness.
pub open spec fn spec_reflect_signal(m: MaterialV) -> V3 {
    v3_lerp(V3 { x: FX_ONE as int, y: FX_ONE as int, z: FX_ONE as int }, m.frensel, m.metal)
}

/// The mirror direction of `-wo` about the unit normal.
pub open spec fn spec_mirror(wo: V3, n: V3) -> V3 {
    let nhat = crate::vec3::v3_normalize(n);
    let d = crate::vec3::v3_neg(wo);
    let t = v3_dot(d, nhat);
    v3_sub(d, v3_scale(nhat, fx_add_spec(t, t)))
}

/// The exit signal: white tinted toward the material color by the opacity
/// accumulated over the squared path length, capped at full tint.
pub open spec fn spec_exit_signal(m: MaterialV, length: int) -> V3 {
    let opacity = fx_sub_spec(FX_ONE as int, m.transparency);
    let sq = fx_mul_spec(length, length);
    let volume_raw = fx_mul_spec(opacity, sq);
    let volume = if volume_raw <= FX_ONE {
        volume_raw
    } else {
        FX_ONE as int
    };
    v3_lerp(V3 { x: FX_ONE as int, y: FX_ONE as int, z: FX_ONE as int }, m.color, volume)
}

/// One step of the filtered probability test: the already-consumed mass
/// `p` grows by the fraction `q` of what remains.
pub open spec fn spec_filter_step(p: int, q: int) -> int {
    fx_add_spec(p, fx_mul_spec(fx_sub_spec(FX_ONE as int, p), q))
}

/// The four-branch selection of one unit draw `r` against event
/// probabilities `q1, q2, q3`: 0 through 3, in filter order.
pub open spec fn spec_filter_branch(q1: int, q2: int, q3: int, r: int) -> int {
    let m1 = spec_filter_step(0, q1);
    let m2 = spec_filter_step(m1, q2);
    let m3 = spec_filter_step(m2, q3);
    if r < m1 {
        0int
    } else if r < m2 {
        1int
    } else if r < m3 {
        2int
    } else {
        3int
    }
}

/// A sequential conditional probability filter: one unit draw is tested
/// against a growing consumed-probability bound, so the candidate events
/// partition the draw's range.
pub struct FilteredProbabilityTest {
    pub r: Fx,
    pub p: Fx,
}

impl FilteredProbabilityTest {
    /// A fresh filter over one unit draw, with no mass consumed yet.
    pub fn new(rng: &mut Rng) -> (t: FilteredProbabilityTest)
        ensures
            0 <= t.r < FX_ONE,
            t.p == 0,
    {
        FilteredProbabilityTest { r: rng.next_unit(), p: 0 }
    }

    /// Consume the fraction `q` of the remaining probability mass; true
    /// when the draw falls inside the newly consumed stretch, so that the
    /// candidate event fires.
    pub fn or(&mut self, q: Fx) -> (fires: bool)
        ensures
            final(self).r == old(self).r,
            final(self).p as int == spec_filter_step(old(self).p as int, q as int),
            fires == (final(self).r < final(self).p),
    {
        self.p = fx_add(self.p, fx_mul(fx_sub(FX_ONE, self.p), q));
        self.r < self.p
    }
}

/// Scaling a value by a unit-range factor keeps it between zero and the
/// value itself; a negative value is drawn toward zero the same way.
pub proof fn lemma_fx_mul_unit(x: int, q: int)
    requires
        0 <= q <= FX_ONE,
        -(i64::MAX as int) <= x <= i64::MAX,
    ensures
        x >= 0 ==> 0 <= fx_mul_spec(x, q) <= x,
        x < 0 ==> x <= fx_mul_spec(x, q) <= 0,
{
    assert(x >= 0 ==> 0 <= crate::fx::div_tz(x * q, FX_ONE as int) <= x) by (nonlinear_arith)
        requires
            0 <= q <= FX_ONE,
    ;
    assert(x < 0 ==> x <= crate::fx::div_tz(x * q, FX_ONE as int) <= 0) by (nonlinear_arith)
        requires
            0 <= q <= FX_ONE,
    ;
}

/// The filtered probability test consumes mass monotonically and never
/// beyond the whole: each step's bound stays in `[previous, 1]`.
pub proof fn lemma_filter_step_bounds(p: int, q: int)
    requires
        0 <= p <= FX_ONE,
        0 <= q <= FX_ONE,
    ensures
        p <= spec_filter_step(p, q) <= FX_ONE,
{
    lemma_fx_mul_unit(fx_sub_spec(FX_ONE as int, p), q);
}

/// The four-branch selection partitions the unit draws: the branch bounds
/// grow from `q1` up to at most one, each stretch holding exactly the
/// filtered share of the remaining mass, and every draw selects exactly
/// the branch whose stretch holds it.
pub proof fn lemma_filter_partition(q1: int, q2: int, q3: int)
    requires
        0 <= q1 <= FX_ONE,
        0 <= q2 <= FX_ONE,
        0 <= q3 <= FX_ONE,
    ensures
        ({
            let m1 = spec_filter_step(0, q1);
            let m2 = spec_filter_step(m1, q2);
            let m3 = spec_filter_step(m2, q3);
            &&& m1 == q1
            &&& 0 <= m1 <= m2 <= m3 <= FX_ONE
            &&& m2 - m1 == fx_mul_spec(fx_sub_spec(FX_ONE as int, m1), q2)
            &&& m3 - m2 == fx_mul_spec(fx_sub_spec(FX_ONE as int, m2), q3)
            &&& forall|r: int|
                0 <= r < FX_ONE ==> spec_filter_branch(q1, q2, q3, r) == (if r < m1 {
                    0int
                } else if r < m2 {
                    1int
                } else if r < m3 {
                    2int
                } else {
                    3int
                })
        }),
{
    let m1 = spec_filter_step(0, q1);
    lemma_filter_step_bounds(0, q1);
    lemma_filter_step_bounds(m1, q2);
    let m2 = spec_filter_step(m1, q2);
    lemma_filter_step_bounds(m2, q3);
    assert(crate::fx::div_tz((FX_ONE as int) * q1, FX_ONE as int) == q1) by (nonlinear_arith)
        requires
            0 <= q1,
    ;
    lemma_fx_mul_unit(fx_sub_spec(FX_ONE as int, m1), q2);
    lemma_fx_mul_unit(fx_sub_spec(FX_ONE as int, m2), q3);
}

impl Material {
    /// A material from its optical coefficients.
    pub fn new(
        color: Vec3,
        refraction: Fx,
        transparency: Fx,
        light: Vec3,
        frensel: Vec3,
        metal: Fx,
        gloss: Fx,
    ) -> (m: Material)
        ensures
            m@ == (MaterialV {
                color: color@,
                refraction: refraction as int,
                transparency: transparency as int,
                light: light@,
                frensel: frensel@,
                metal: metal as int,
                gloss: gloss as int,
            }),
    {
        Material { color, refraction, transparency, light, frensel, metal, gloss }
    }

    /// Whether this material is a light source: its emission has a
    /// positive length.
    pub fn can_emit(&self) -> (r: bool)
        ensures
            r == (v3_norm(self@.light) > 0),
    {
        self.light.norm() > 0
    }

    /// The emitted radiance.
    pub fn emit(&self) -> (r: Vec3)
        ensures
            r@ == self@.light,
    {
        self.light
    }

    /// The diffuse reflectance color.
    pub fn color(&self) -> (r: Vec3)
        ensures
            r@ == self@.color,
    {
        self.color
    }

    /// Schlick's Fresnel approximation at this interaction's incidence
    /// angle.
    pub fn schilck(&self, interaction: &SurfaceInteraction) -> (r: Vec3)
        ensures
            r@ == spec_schlick(self@, interaction.wo@, interaction.surface.n@),
    {
        let cos_incident = interaction.wo.dot(&interaction.surface.n);
        let p = fx_sub(FX_ONE, cos_incident);
        let p2 = fx_mul(p, p);
        let p4 = fx_mul(p2, p2);
        let p5 = fx_mul(p4, p);
        self.frensel.add(&Vec3::ones().sub(&self.frensel).scale(p5))
    }

    /// The terminated event: no direction, no throughput.
    pub fn dead(&self) -> (r: BSDF)
        ensures
            r.direction@ == (V3 { x: 0, y: 0, z: 0 }),
            r.signal@ == (V3 { x: 0, y: 0, z: 0 }),
    {
        BSDF { direction: Vec3::zeros(), signal: Vec3::zeros() }
    }

    /// The specular reflection event: the mirror direction perturbed in a
    /// cone that widens as glossiness falls, attenuated by the
    /// metal-weighted Fresnel tint.
    #[verifier::rlimit(50)]
    pub fn reflected(&self, interaction: &SurfaceInteraction, u: Fx, v: Fx, rng: &mut Rng) -> (r:
        BSDF)
        ensures
            exists|q: V3|
                r.direction@ == crate::ray::spec_cone_direction(
                    spec_mirror(interaction.wo@, interaction.surface.n@),
                    fx_sub_spec(FX_ONE as int, self@.gloss),
                    u as int,
                    v as int,
                    q,
                ),
            r.signal@ == spec_reflect_signal(self@),
            spec_valid_material(self@) ==> v3_in_unit(r.signal@),
    {
        let nhat = interaction.surface.n.normalize();
        let d = interaction.wo.neg();
        let t = d.dot(&nhat);
        let mirror = d.sub(&nhat.scale(fx_add(t, t)));
        let direction = Vec3::random_in_cone(&mirror, fx_sub(FX_ONE, self.gloss), u, v, rng);
        let signal = Vec3::ones().lerp(&self.frensel, self.metal);
        proof {
            let w = fx_sub_spec(FX_ONE as int, self@.gloss);
            let qv = choose|q: V3|
                direction@ == crate::ray::spec_cone_direction(mirror@, w, u as int, v as int, q);
            assert(mirror@ == spec_mirror(interaction.wo@, interaction.surface.n@));
            assert(direction@ == crate::ray::spec_cone_direction(
                spec_mirror(interaction.wo@, interaction.surface.n@),
                w,
                u as int,
                v as int,
                qv,
            ));
            if spec_valid_material(self@) {
                lemma_fx_mul_unit(fx_sub_spec(self@.frensel.x, FX_ONE as int), self@.metal);
                lemma_fx_mul_unit(fx_sub_spec(self@.frensel.y, FX_ONE as int), self@.metal);
                lemma_fx_mul_unit(fx_sub_spec(self@.frensel.z, FX_ONE as int), self@.metal);
            }
        }
        BSDF { direction, signal }
    }

    /// The refraction event on entering the medium: Snell's law against
    /// the outside index of one, with no attenuation; dead on the total
    /// internal reflection that a sub-unit index can produce.
    pub fn refracted_entry(&self, interaction: &SurfaceInteraction) -> (r: BSDF)
        ensures
            ({
                let ratio = crate::fx::fx_div_spec(FX_ONE as int, self@.refraction);
                let d = crate::vec3::v3_neg(interaction.wo@);
                if crate::ray::spec_refraction_k(d, interaction.surface.n@, ratio) >= 0 {
                    r.direction@ == crate::ray::spec_refracted(
                        d,
                        interaction.surface.n@,
                        ratio,
                    ) && r.signal@ == (V3 {
                        x: FX_ONE as int,
                        y: FX_ONE as int,
                        z: FX_ONE as int,
                    })
                } else {
                    r.direction@ == (V3 { x: 0, y: 0, z: 0 }) && r.signal@ == (V3 {
                        x: 0,
                        y: 0,
                        z: 0,
                    })
                }
            }),
            v3_in_unit(r.signal@),
    {
        match interaction.wo.neg().refraction(&interaction.surface.n, FX_ONE, self.refraction) {
            Some(direction) => BSDF { direction, signal: Vec3::ones() },
            None => self.dead(),
        }
    }

    /// The refraction event on leaving the medium: the already-computed
    /// exit direction, tinted by the color over the squared path length.
    pub fn refracted_exit(&self, exited: Vec3, length: Fx) -> (r: BSDF)
        ensures
            r.direction == exited,
            r.signal@ == spec_exit_signal(self@, length as int),
            spec_valid_material(self@) ==> v3_in_unit(r.signal@),
    {
        let opacity = fx_sub(FX_ONE, self.transparency);
        let volume = fx_min(fx_mul(opacity, fx_mul(length, length)), FX_ONE);
        let tint = Vec3::ones().lerp(&self.color, volume);
        proof {
            if spec_valid_material(self@) {
                let op = fx_sub_spec(FX_ONE as int, self@.transparency);
                let len2 = fx_mul_spec(length as int, length as int);
                assert((length as int) * (length as int) >= 0) by (nonlinear_arith);
                assert(op * len2 >= 0) by (nonlinear_arith)
                    requires
                        op >= 0,
                        len2 >= 0,
                ;
                let raw = fx_mul_spec(op, len2);
                let volume_v = if raw <= FX_ONE {
                    raw
                } else {
                    FX_ONE as int
                };
                assert(0 <= volume_v <= FX_ONE);
                lemma_fx_mul_unit(fx_sub_spec(self@.color.x, FX_ONE as int), volume_v);
                lemma_fx_mul_unit(fx_sub_spec(self@.color.y, FX_ONE as int), volume_v);
                lemma_fx_mul_unit(fx_sub_spec(self@.color.z, FX_ONE as int), volume_v);
            }
        }
        BSDF { direction: exited, signal: tint }
    }
}


/// The cosine-weighted hemisphere density of a direction: its cosine
/// against the normal over pi, zero below the horizon.
pub open spec fn spec_cos_pdf(normal: V3, dir: V3) -> int {
    let c = v3_dot(dir, normal);
    if c > 0 {
        crate::fx::fx_div_spec(c, crate::trig::FX_PI as int)
    } else {
        0
    }
}

/// The light-directed density of a direction: the light sphere's
/// solid-angle coverage over pi inside its cone of half-angle
/// `asin(R/h)`, zero elsewhere or below the horizon. Both the coverage
/// `R^2/(h^2 - R^2)` and the cone test `cos(angle) > cos(asin(R/h)) =
/// sqrt(1 - (R/h)^2)` restate the inverse-sine, tangent and cosine chain
/// through the right-triangle identities; a shading point inside the
/// light's radius sees the full hemisphere.
#[verifier::opaque]
pub open spec fn spec_light_pdf(point: V3, normal: V3, light: crate::sphere::SphereV, dir: V3) -> int {
    let cos_angle = v3_dot(dir, normal);
    if cos_angle <= 0 {
        0
    } else {
        let la = v3_sub(light.center, point);
        let hyp = v3_norm(la);
        let h2 = fx_mul_spec(hyp, hyp);
        let o2 = fx_mul_spec(light.radius, light.radius);
        let denom = fx_sub_spec(h2, o2);
        let ratio = crate::fx::fx_div_spec(o2, denom);
        let coverage = if hyp <= light.radius || denom <= 0 {
            FX_ONE as int
        } else if ratio <= FX_ONE {
            ratio
        } else {
            FX_ONE as int
        };
        let prod = fx_mul_spec(hyp, v3_norm(dir));
        let in_cone = if hyp <= light.radius {
            true
        } else {
            let sin_half = crate::fx::fx_div_spec(light.radius, hyp);
            let cos_half = crate::fx::spec_fx_sqrt(
                fx_sub_spec(FX_ONE as int, fx_mul_spec(sin_half, sin_half)),
            );
            prod > 0 && v3_dot(la, dir) > fx_mul_spec(cos_half, prod)
        };
        if in_cone {
            crate::fx::fx_div_spec(coverage, crate::trig::FX_PI as int)
        } else {
            0
        }
    }
}

/// The direction toward the point of the light's disk selected by the
/// in-disk offsets `x, y`, in the disk frame built from the axis toward
/// the light and the auxiliary direction `q`.
pub open spec fn spec_light_gen(point: V3, center: V3, radius: int, x: int, y: int, q: V3) -> V3 {
    let l = crate::vec3::v3_normalize(v3_sub(center, point));
    let u = crate::vec3::v3_normalize(crate::vec3::v3_cross(l, q));
    let v = crate::vec3::v3_cross(l, u);
    let target = v3_add(
        v3_add(center, v3_scale(v3_scale(u, x), radius)),
        v3_scale(v3_scale(v, y), radius),
    );
    crate::vec3::v3_normalize(v3_sub(target, point))
}

/// The offsets lie inside the unit disk.
pub open spec fn spec_in_disk(x: int, y: int) -> bool {
    &&& -(FX_ONE as int) <= x <= FX_ONE
    &&& -(FX_ONE as int) <= y <= FX_ONE
    &&& fx_add_spec(fx_mul_spec(x, x), fx_mul_spec(y, y)) <= FX_ONE
}

/// Cosine-weighted hemisphere sampling around a normal, from two unit
/// draws fixed at construction.
pub struct CosWeightedDiffuse {
    pub u: Fx,
    pub v: Fx,
    pub normal: Vec3,
}

impl CosWeightedDiffuse {
    /// A sampler around `normal` using the two unit draws.
    pub fn new(normal: Vec3, u: Fx, v: Fx) -> (r: CosWeightedDiffuse)
        ensures
            r.normal == normal,
            r.u == u,
            r.v == v,
    {
        CosWeightedDiffuse { u, v, normal }
    }

    /// This sampler's density at a direction.
    pub fn p(&self, dir: &Vec3) -> (r: Fx)
        ensures
            r as int == spec_cos_pdf(self.normal@, dir@),
    {
        let cosine = dir.dot(&self.normal);
        if cosine > 0 {
            crate::fx::fx_div(cosine, crate::trig::FX_PI)
        } else {
            0
        }
    }

    /// The sampled direction: the hemisphere sample carried into the
    /// normal's frame.
    pub fn gen(&self) -> (r: Vec3)
        ensures
            r@ == crate::onb::spec_onb_local(
                crate::onb::spec_onb_from_normal(self.normal@),
                crate::ray::spec_cos_hemisphere(self.u as int, self.v as int),
            ),
    {
        let vec = Vec3::random_in_cos_hemisphere(self.u, self.v);
        let onb = crate::onb::OrthonormalBasis::from_normal(self.normal);
        onb.local(vec)
    }
}

/// Sampling directed at one light's bounding sphere, weighted by its
/// solid-angle coverage.
pub struct LightWeightedDiffuse {
    pub point: Point3,
    pub normal: Vec3,
    pub light: crate::sphere::Sphere,
}

impl LightWeightedDiffuse {
    /// A sampler from `point` (with surface normal `normal`) toward the
    /// light sphere.
    pub fn new(point: Point3, normal: Vec3, light: crate::sphere::Sphere) -> (r:
        LightWeightedDiffuse)
        ensures
            r.point == point,
            r.normal == normal,
            r.light == light,
    {
        LightWeightedDiffuse { point, normal, light }
    }

    /// This sampler's density at a direction.
    pub fn p(&self, dir: &Vec3) -> (r: Fx)
        ensures
            r as int == spec_light_pdf(self.point@, self.normal@, self.light@, dir@),
    {
        proof {
            reveal(spec_light_pdf);
        }
        let cos_angle = dir.dot(&self.normal);
        if cos_angle <= 0 {
            return 0;
        }
        let la = self.light.center().sub(&self.point);
        let hyp = la.norm();
        let h2 = fx_mul(hyp, hyp);
        let radius = self.light.radius();
        let o2 = fx_mul(radius, radius);
        let denom = fx_sub(h2, o2);
        let coverage: Fx = if hyp <= radius || denom <= 0 {
            FX_ONE
        } else {
            fx_min(crate::fx::fx_div(o2, denom), FX_ONE)
        };
        let prod = fx_mul(hyp, dir.norm());
        let in_cone: bool = if hyp <= radius {
            true
        } else {
            let sin_half = crate::fx::fx_div(radius, hyp);
            let cos_half = crate::fx::fx_sqrt(
                fx_sub(FX_ONE, fx_mul(sin_half, sin_half)),
            );
            prod > 0 && la.dot(dir) > fx_mul(cos_half, prod)
        };
        if in_cone {
            crate::fx::fx_div(coverage, crate::trig::FX_PI)
        } else {
            0
        }
    }

    /// The sampled direction: toward a point of the light's disk chosen
    /// by rejection inside the unit disk, falling back to the disk's
    /// center when no draw lands inside.
    pub fn gen(&self, rng: &mut Rng) -> (r: Vec3)
        ensures
            exists|x: int, y: int, q: V3|
                spec_in_disk(x, y) && r@ == spec_light_gen(
                    self.point@,
                    self.light@.center,
                    self.light@.radius,
                    x,
                    y,
                    q,
                ),
    {
        let mut xx: Fx = 0;
        let mut yy: Fx = 0;
        let mut t: usize = 0;
        while t < 64
            invariant
                spec_in_disk(xx as int, yy as int),
            decreases 64 - t,
        {
            let u1 = rng.next_unit();
            let u2 = rng.next_unit();
            let cx = fx_sub(fx_add(u1, u1), FX_ONE);
            let cy = fx_sub(fx_add(u2, u2), FX_ONE);
            if fx_add(fx_mul(cx, cx), fx_mul(cy, cy)) <= FX_ONE {
                xx = cx;
                yy = cy;
                t = 64;
            } else {
                t = t + 1;
            }
        }
        let q = Vec3::random_in_sphere(rng);
        let center = self.light.center();
        let radius = self.light.radius();
        let l = center.sub(&self.point).normalize();
        let u_axis = l.cross(&q).normalize();
        let v_axis = l.cross(&u_axis);
        let target = center.add_vec(&u_axis.scale(xx).scale(radius)).add_vec(
            &v_axis.scale(yy).scale(radius),
        );
        let r = target.sub(&self.point).normalize();
        proof {
            assert(spec_in_disk(xx as int, yy as int) && r@ == spec_light_gen(
                self.point@,
                self.light@.center,
                self.light@.radius,
                xx as int,
                yy as int,
                q@,
            ));
        }
        r
    }
}

/// One component of the diffuse mixture: the fixed set of sampling
/// strategies as a closed tagged variant.
pub enum PdfComponent {
    Cosine(CosWeightedDiffuse),
    Light(LightWeightedDiffuse),
}

/// A component's density at a direction.
pub open spec fn spec_component_pdf(c: PdfComponent, dir: V3) -> int {
    match c {
        PdfComponent::Cosine(cw) => spec_cos_pdf(cw.normal@, dir),
        PdfComponent::Light(lw) => spec_light_pdf(lw.point@, lw.normal@, lw.light@, dir),
    }
}

/// Whether `out` is a direction the component's sampler can produce,
/// for some auxiliary draws.
#[verifier::opaque]
pub open spec fn spec_gen_matches(c: PdfComponent, out: V3) -> bool {
    match c {
        PdfComponent::Cosine(cw) => out == crate::onb::spec_onb_local(
            crate::onb::spec_onb_from_normal(cw.normal@),
            crate::ray::spec_cos_hemisphere(cw.u as int, cw.v as int),
        ),
        PdfComponent::Light(lw) => exists|x: int, y: int, q: V3|
            spec_in_disk(x, y) && out == spec_light_gen(
                lw.point@,
                lw.light@.center,
                lw.light@.radius,
                x,
                y,
                q,
            ),
    }
}

/// The sum of all component densities at a direction.
pub open spec fn spec_pdf_sum(cs: Seq<PdfComponent>, dir: V3) -> int
    decreases cs.len(),
{
    if cs.len() == 0 {
        0
    } else {
        fx_add_spec(spec_pdf_sum(cs.drop_last(), dir), spec_component_pdf(cs.last(), dir))
    }
}

/// A mixture over sampling strategies: one component generates, all
/// components' densities average, keeping the estimator unbiased.
pub struct MixturePdf {
    components: Vec<PdfComponent>,
}

impl MixturePdf {
    /// A mixture over the given components.
    pub fn new(components: Vec<PdfComponent>) -> (r: MixturePdf)
        ensures
            r.spec_components() == components@,
    {
        MixturePdf { components }
    }

    /// The components, as the mixture's model.
    pub closed spec fn spec_components(&self) -> Seq<PdfComponent> {
        self.components@
    }

    /// The mixture's density: the average of its components' densities.
    pub fn p(&self, dir: &Vec3) -> (r: Fx)
        requires
            1 <= self.spec_components().len() <= 0x7fff_ffff,
        ensures
            r as int == crate::fx::fx_div_int_spec(
                spec_pdf_sum(self.spec_components(), dir@),
                self.spec_components().len() as int,
            ),
    {
        let mut total: Fx = 0;
        let mut i: usize = 0;
        while i < self.components.len()
            invariant
                i <= self.components.len(),
                total as int == spec_pdf_sum(self.components@.take(i as int), dir@),
            decreases self.components.len() - i,
        {
            let c = &self.components[i];
            let pc: Fx = match c {
                PdfComponent::Cosine(cw) => cw.p(dir),
                PdfComponent::Light(lw) => lw.p(dir),
            };
            proof {
                assert(self.components@.take(i + 1 as int).drop_last() =~= self.components@.take(
                    i as int,
                ));
                assert(self.components@.take(i + 1 as int).last() == self.components@[i as int]);
            }
            total = fx_add(total, pc);
            i = i + 1;
        }
        proof {
            assert(self.components@.take(self.components@.len() as int) =~= self.components@);
        }
        crate::fx::fx_div_int(total, self.components.len() as i64)
    }

    /// Generate a direction: one component is chosen by reducing a
    /// 64-bit draw modulo the component count (uniform up to the
    /// negligible modulo remainder) and asked to sample.
    pub fn gen(&self, rng: &mut Rng) -> (r: Vec3)
        requires
            self.spec_components().len() >= 1,
        ensures
            exists|k: int|
                0 <= k < self.spec_components().len() && spec_gen_matches(
                    #[trigger] self.spec_components()[k],
                    r@,
                ),
    {
        let idx = rng.next_below(self.components.len() as u64) as usize;
        let r = match &self.components[idx] {
            PdfComponent::Cosine(cw) => cw.gen(),
            PdfComponent::Light(lw) => lw.gen(rng),
        };
        proof {
            reveal(spec_gen_matches);
            assert(spec_gen_matches(self.spec_components()[idx as int], r@));
        }
        r
    }
}


/// Whether a mixture's components are exactly those the diffuse event
/// builds: the cosine sampler first, then one light sampler per scene
/// light, in order.
pub open spec fn spec_diffuse_components(
    cs: Seq<PdfComponent>,
    s: crate::scene::SceneV,
    n: V3,
    p: V3,
    u: int,
    v: int,
) -> bool {
    &&& cs.len() == s.lights.len() + 1
    &&& cs[0] is Cosine
    &&& cs[0]->Cosine_0.normal@ == n
    &&& cs[0]->Cosine_0.u as int == u
    &&& cs[0]->Cosine_0.v as int == v
    &&& forall|k: int|
        0 <= k < s.lights.len() ==> {
            &&& #[trigger] cs[k + 1] is Light
            &&& cs[k + 1]->Light_0.point@ == p
            &&& cs[k + 1]->Light_0.normal@ == n
            &&& cs[k + 1]->Light_0.light@ == s.objects[s.lights[k]]
        }
}

/// The diffuse event: the direction comes from one component of the
/// mixture over the cosine sampler and the scene's lights, and the
/// signal is the material color scaled by the mixture's density there.
#[verifier::opaque]
pub open spec fn spec_is_diffuse_event(
    m: MaterialV,
    s: crate::scene::SceneV,
    n: V3,
    p: V3,
    u: int,
    v: int,
    dir: V3,
    sig: V3,
) -> bool {
    exists|cs: Seq<PdfComponent>|
        {
            &&& #[trigger] spec_diffuse_components(cs, s, n, p, u, v)
            &&& exists|k: int| 0 <= k < cs.len() && spec_gen_matches(#[trigger] cs[k], dir)
            &&& sig == v3_scale(
                m.color,
                crate::fx::fx_div_int_spec(spec_pdf_sum(cs, dir), cs.len() as int),
            )
        }
}

/// The specular reflection event's shape.
pub open spec fn spec_is_reflect_event(
    m: MaterialV,
    wo: V3,
    n: V3,
    u: int,
    v: int,
    dir: V3,
    sig: V3,
) -> bool {
    &&& sig == spec_reflect_signal(m)
    &&& exists|q: V3|
        dir == crate::ray::spec_cone_direction(
            spec_mirror(wo, n),
            fx_sub_spec(FX_ONE as int, m.gloss),
            u,
            v,
            q,
        )
}

/// The entry refraction event's shape: Snell's law against an outside
/// index of one, or the dead event on a negative discriminant.
pub open spec fn spec_is_entry_event(m: MaterialV, wo: V3, n: V3, dir: V3, sig: V3) -> bool {
    let ratio = crate::fx::fx_div_spec(FX_ONE as int, m.refraction);
    let d = crate::vec3::v3_neg(wo);
    if crate::ray::spec_refraction_k(d, n, ratio) >= 0 {
        dir == crate::ray::spec_refracted(d, n, ratio) && sig == (V3 {
            x: FX_ONE as int,
            y: FX_ONE as int,
            z: FX_ONE as int,
        })
    } else {
        dir == (V3 { x: 0, y: 0, z: 0 }) && sig == (V3 { x: 0, y: 0, z: 0 })
    }
}

/// The exit refraction event's shape: Snell's law out of the medium,
/// with the volumetric tint, or the dead event on total internal
/// reflection.
pub open spec fn spec_is_exit_event(
    m: MaterialV,
    wo: V3,
    n: V3,
    length: int,
    dir: V3,
    sig: V3,
) -> bool {
    let d = crate::vec3::v3_neg(wo);
    let nn = crate::vec3::v3_neg(n);
    let ratio = crate::fx::fx_div_spec(m.refraction, FX_ONE as int);
    if crate::ray::spec_refraction_k(d, nn, ratio) >= 0 {
        dir == crate::ray::spec_refracted(d, nn, ratio) && sig == spec_exit_signal(m, length)
    } else {
        dir == (V3 { x: 0, y: 0, z: 0 }) && sig == (V3 { x: 0, y: 0, z: 0 })
    }
}

/// What a surface-entry scattering call returns for the unit draw `rd`
/// of its event filter: the draw's branch decides the event, and the
/// result has that event's shape.
pub open spec fn spec_brdf_event(
    m: MaterialV,
    s: crate::scene::SceneV,
    wo: V3,
    n: V3,
    p: V3,
    u: int,
    v: int,
    rd: int,
    dir: V3,
    sig: V3,
) -> bool {
    let q1 = crate::vec3::v3_component_average(spec_schlick(m, wo, n));
    let br = spec_filter_branch(q1, m.transparency, m.metal, rd);
    &&& (br == 0 ==> spec_is_reflect_event(m, wo, n, u, v, dir, sig))
    &&& (br == 1 ==> spec_is_entry_event(m, wo, n, dir, sig))
    &&& (br == 2 ==> dir == (V3 { x: 0, y: 0, z: 0 }) && sig == (V3 { x: 0, y: 0, z: 0 }))
    &&& (br == 3 ==> spec_is_diffuse_event(m, s, n, p, u, v, dir, sig))
}

impl Material {
    /// The diffuse event: sample the mixture of cosine-weighted and
    /// light-directed strategies, and weigh the color by the mixture's
    /// density at the chosen direction.
    pub fn diffused(
        &self,
        scene: &crate::scene::Scene,
        interaction: &SurfaceInteraction,
        u: Fx,
        v: Fx,
        rng: &mut Rng,
    ) -> (r: BSDF)
        requires
            crate::scene::spec_scene_wf(scene@),
            scene@.lights.len() < 0x7fff_ffff,
        ensures
            spec_is_diffuse_event(
                self@,
                scene@,
                interaction.surface.n@,
                interaction.surface.p@,
                u as int,
                v as int,
                r.direction@,
                r.signal@,
            ),
    {
        let mut components: Vec<PdfComponent> = Vec::new();
        components.push(
            PdfComponent::Cosine(CosWeightedDiffuse::new(interaction.surface.n, u, v)),
        );
        let lights = scene.lights();
        let mut k: usize = 0;
        while k < lights.len()
            invariant
                k <= lights.len(),
                lights@.len() == scene@.lights.len(),
                forall|j: int|
                    0 <= j < lights@.len() ==> #[trigger] lights@[j]@ == scene@.objects[scene@.lights[j]],
                components@.len() == k + 1,
                components@[0] is Cosine,
                components@[0]->Cosine_0.normal == interaction.surface.n,
                components@[0]->Cosine_0.u == u,
                components@[0]->Cosine_0.v == v,
                forall|j: int|
                    0 <= j < k ==> {
                        &&& #[trigger] components@[j + 1] is Light
                        &&& components@[j + 1]->Light_0.point == interaction.surface.p
                        &&& components@[j + 1]->Light_0.normal == interaction.surface.n
                        &&& components@[j + 1]->Light_0.light@ == scene@.objects[scene@.lights[j]]
                    },
            decreases lights.len() - k,
        {
            components.push(
                PdfComponent::Light(
                    LightWeightedDiffuse::new(
                        interaction.surface.p,
                        interaction.surface.n,
                        lights[k],
                    ),
                ),
            );
            k = k + 1;
        }
        let mix = MixturePdf::new(components);
        let direction = mix.gen(rng);
        let pdf = mix.p(&direction);
        let signal = self.color.scale(pdf);
        proof {
            reveal(spec_is_diffuse_event);
            let cs = mix.spec_components();
            assert(spec_diffuse_components(
                cs,
                scene@,
                interaction.surface.n@,
                interaction.surface.p@,
                u as int,
                v as int,
            ));
            assert(signal@ == v3_scale(
                self@.color,
                crate::fx::fx_div_int_spec(spec_pdf_sum(cs, direction@), cs.len() as int),
            ));
        }
        BSDF { direction, signal }
    }

    /// One scattering event. Entering the surface, the filtered
    /// probability test picks reflection, entry refraction, absorption
    /// or the diffuse mixture; leaving it, the ray refracts out of the
    /// medium or dies on total internal reflection.
    pub fn bsdf(
        &self,
        scene: &crate::scene::Scene,
        interaction: SurfaceInteraction,
        length: Fx,
        u: Fx,
        v: Fx,
        rng: &mut Rng,
    ) -> (r: BSDF)
        requires
            crate::scene::spec_scene_wf(scene@),
            scene@.lights.len() < 0x7fff_ffff,
        ensures
            v3_dot(interaction.wo@, interaction.surface.n@) > 0 ==> exists|rd: int|
                0 <= rd < FX_ONE && spec_brdf_event(
                    self@,
                    scene@,
                    interaction.wo@,
                    interaction.surface.n@,
                    interaction.surface.p@,
                    u as int,
                    v as int,
                    rd,
                    r.direction@,
                    r.signal@,
                ),
            v3_dot(interaction.wo@, interaction.surface.n@) <= 0 ==> spec_is_exit_event(
                self@,
                interaction.wo@,
                interaction.surface.n@,
                length as int,
                r.direction@,
                r.signal@,
            ),
    {
        if interaction.wo.dot(&interaction.surface.n) > 0 {
            let mut test = FilteredProbabilityTest::new(rng);
            let ghost rd = test.r as int;
            let schl = self.schilck(&interaction).component_average();
            let out: BSDF = if test.or(schl) {
                self.reflected(&interaction, u, v, rng)
            } else if test.or(self.transparency) {
                self.refracted_entry(&interaction)
            } else if test.or(self.metal) {
                self.dead()
            } else {
                self.diffused(scene, &interaction, u, v, rng)
            };
            proof {
                assert(spec_brdf_event(
                    self@,
                    scene@,
                    interaction.wo@,
                    interaction.surface.n@,
                    interaction.surface.p@,
                    u as int,
                    v as int,
                    rd,
                    out.direction@,
                    out.signal@,
                ));
            }
            out
        } else {
            match interaction.wo.neg().refraction(
                &interaction.surface.n.neg(),
                self.refraction,
                FX_ONE,
            ) {
                Some(exited) => self.refracted_exit(exited, length),
                None => self.dead(),
            }
        }
    }
}


/// A product of non-negative scalars is non-negative.
pub proof fn lemma_fx_mul_nonneg(a: int, b: int)
    requires
        a >= 0,
        b >= 0,
    ensures
        fx_mul_spec(a, b) >= 0,
{
    assert(a * b >= 0) by (nonlinear_arith)
        requires
            a >= 0,
            b >= 0,
    ;
}

/// A quotient of a non-negative scalar by a positive one is non-negative.
pub proof fn lemma_fx_div_nonneg(a: int, b: int)
    requires
        a >= 0,
        b > 0,
    ensures
        crate::fx::fx_div_spec(a, b) >= 0,
{
    assert(a * (FX_ONE as int) >= 0) by (nonlinear_arith)
        requires
            a >= 0,
    ;
}

/// The reflection signal of a valid material stays in the unit range.
pub proof fn lemma_reflect_signal_unit(m: MaterialV)
    requires
        spec_valid_material(m),
    ensures
        v3_in_unit(spec_reflect_signal(m)),
{
    lemma_fx_mul_unit(fx_sub_spec(m.frensel.x, FX_ONE as int), m.metal);
    lemma_fx_mul_unit(fx_sub_spec(m.frensel.y, FX_ONE as int), m.metal);
    lemma_fx_mul_unit(fx_sub_spec(m.frensel.z, FX_ONE as int), m.metal);
}

/// The exit signal of a valid material stays in the unit range.
pub proof fn lemma_exit_signal_unit(m: MaterialV, length: int)
    requires
        spec_valid_material(m),
    ensures
        v3_in_unit(spec_exit_signal(m, length)),
{
    let op = fx_sub_spec(FX_ONE as int, m.transparency);
    let len2 = fx_mul_spec(length, length);
    assert(length * length >= 0) by (nonlinear_arith);
    lemma_fx_mul_nonneg(op, len2);
    let raw = fx_mul_spec(op, len2);
    let volume = if raw <= FX_ONE {
        raw
    } else {
        FX_ONE as int
    };
    lemma_fx_mul_unit(fx_sub_spec(m.color.x, FX_ONE as int), volume);
    lemma_fx_mul_unit(fx_sub_spec(m.color.y, FX_ONE as int), volume);
    lemma_fx_mul_unit(fx_sub_spec(m.color.z, FX_ONE as int), volume);
}

/// Every sampling strategy's density is non-negative.
pub proof fn lemma_component_pdf_nonneg(c: PdfComponent, dir: V3)
    ensures
        spec_component_pdf(c, dir) >= 0,
{
    match c {
        PdfComponent::Cosine(cw) => {
            let cos = v3_dot(dir, cw.normal@);
            if cos > 0 {
                lemma_fx_div_nonneg(cos, crate::trig::FX_PI as int);
            }
        },
        PdfComponent::Light(lw) => {
            reveal(spec_light_pdf);
            let light = lw.light@;
            let cos_angle = v3_dot(dir, lw.normal@);
            if cos_angle > 0 {
                let la = v3_sub(light.center, lw.point@);
                let hyp = v3_norm(la);
                let h2 = fx_mul_spec(hyp, hyp);
                let o2 = fx_mul_spec(light.radius, light.radius);
                let denom = fx_sub_spec(h2, o2);
                assert(light.radius * light.radius >= 0) by (nonlinear_arith);
                if !(hyp <= light.radius || denom <= 0) {
                    lemma_fx_div_nonneg(o2, denom);
                }
                let ratio = crate::fx::fx_div_spec(o2, denom);
                let coverage = if hyp <= light.radius || denom <= 0 {
                    FX_ONE as int
                } else if ratio <= FX_ONE {
                    ratio
                } else {
                    FX_ONE as int
                };
                lemma_fx_div_nonneg(coverage, crate::trig::FX_PI as int);
            }
        },
    }
}

/// A sum of strategy densities is non-negative.
pub proof fn lemma_pdf_sum_nonneg(cs: Seq<PdfComponent>, dir: V3)
    ensures
        spec_pdf_sum(cs, dir) >= 0,
    decreases cs.len(),
{
    if cs.len() > 0 {
        lemma_pdf_sum_nonneg(cs.drop_last(), dir);
        lemma_component_pdf_nonneg(cs.last(), dir);
    }
}

/// Whatever event a valid material's scattering call selects on entering
/// a surface, the returned throughput multiplier is non-negative.
pub proof fn lemma_brdf_signal_non_negative(
    m: MaterialV,
    s: crate::scene::SceneV,
    wo: V3,
    n: V3,
    p: V3,
    u: int,
    v: int,
    rd: int,
    dir: V3,
    sig: V3,
)
    requires
        spec_valid_material(m),
        spec_brdf_event(m, s, wo, n, p, u, v, rd, dir, sig),
    ensures
        v3_non_negative(sig),
{
    let q1 = crate::vec3::v3_component_average(spec_schlick(m, wo, n));
    let br = spec_filter_branch(q1, m.transparency, m.metal, rd);
    if br == 0 {
        lemma_reflect_signal_unit(m);
    } else if br == 3 {
        reveal(spec_is_diffuse_event);
        let cs = choose|cs: Seq<PdfComponent>|
            {
                &&& #[trigger] spec_diffuse_components(cs, s, n, p, u, v)
                &&& exists|k: int| 0 <= k < cs.len() && spec_gen_matches(#[trigger] cs[k], dir)
                &&& sig == v3_scale(
                    m.color,
                    crate::fx::fx_div_int_spec(spec_pdf_sum(cs, dir), cs.len() as int),
                )
            };
        lemma_pdf_sum_nonneg(cs, dir);
        let pdf = crate::fx::fx_div_int_spec(spec_pdf_sum(cs, dir), cs.len() as int);
        assert(pdf >= 0);
        lemma_fx_mul_nonneg(m.color.x, pdf);
        lemma_fx_mul_nonneg(m.color.y, pdf);
        lemma_fx_mul_nonneg(m.color.z, pdf);
    }
}

/// Whatever a valid material's scattering call returns on leaving a
/// surface, the throughput multiplier is non-negative.
pub proof fn lemma_exit_signal_non_negative(
    m: MaterialV,
    wo: V3,
    n: V3,
    length: int,
    dir: V3,
    sig: V3,
)
    requires
        spec_valid_material(m),
        spec_is_exit_event(m, wo, n, length, dir, sig),
    ensures
        v3_non_negative(sig),
{
    lemma_exit_signal_unit(m, length);
}

/// Energy conservation across one bounce: multiplying a non-negative
/// throughput componentwise by a unit-range signal cannot increase any
/// component, nor the throughput's magnitude. The reflection, entry
/// refraction, absorption and exit refraction events of a valid material
/// all produce unit-range signals, so along those events a path's
/// throughput never grows.
pub proof fn lemma_throughput_non_increasing(t: V3, s: V3)
    requires
        v3_non_negative(t),
        t.x <= i64::MAX,
        t.y <= i64::MAX,
        t.z <= i64::MAX,
        v3_in_unit(s),
    ensures
        0 <= v3_cmul(t, s).x <= t.x,
        0 <= v3_cmul(t, s).y <= t.y,
        0 <= v3_cmul(t, s).z <= t.z,
        v3_norm(v3_cmul(t, s)) <= v3_norm(t),
{
    lemma_fx_mul_unit(t.x, s.x);
    lemma_fx_mul_unit(t.y, s.y);
    lemma_fx_mul_unit(t.z, s.z);
    let c = v3_cmul(t, s);
    assert(c.x * c.x <= t.x * t.x) by (nonlinear_arith)
        requires
            0 <= c.x <= t.x,
    ;
    assert(c.y * c.y <= t.y * t.y) by (nonlinear_arith)
        requires
            0 <= c.y <= t.y,
    ;
    assert(c.z * c.z <= t.z * t.z) by (nonlinear_arith)
        requires
            0 <= c.z <= t.z,
    ;
    assert(c.x * c.x >= 0 && c.y * c.y >= 0 && c.z * c.z >= 0) by (nonlinear_arith);
    let dc = v3_dot(c, c);
    let dt = v3_dot(t, t);
    assert(dc <= dt);
    assert(dc >= 0);
    if dc > 0 {
        assert(dc * (FX_ONE as int) <= dt * (FX_ONE as int)) by (nonlinear_arith)
            requires
                0 <= dc <= dt,
        ;
        crate::fx::lemma_isqrt_monotone(dc * (FX_ONE as int), dt * (FX_ONE as int));
    } else {
        crate::fx::lemma_isqrt_bounds(dt * (FX_ONE as int));
    }
}


/// A sampling strategy gives positive density only to directions in the
/// hemisphere above its surface normal; directions at or below the
/// horizon get density zero.
pub proof fn lemma_density_only_in_hemisphere(c: PdfComponent, dir: V3)
    ensures
        c is Cosine ==> (spec_component_pdf(c, dir) > 0 ==> v3_dot(dir, c->Cosine_0.normal@)
            > 0),
        c is Light ==> (spec_component_pdf(c, dir) > 0 ==> v3_dot(dir, c->Light_0.normal@) > 0),
{
    reveal(spec_light_pdf);
}

/// The diffuse mixture over one shared normal gives positive density
/// only to directions in the hemisphere above that normal.
pub proof fn lemma_mixture_only_in_hemisphere(cs: Seq<PdfComponent>, n: V3, dir: V3)
    requires
        forall|k: int|
            0 <= k < cs.len() ==> match #[trigger] cs[k] {
                PdfComponent::Cosine(cw) => cw.normal@ == n,
                PdfComponent::Light(lw) => lw.normal@ == n,
            },
    ensures
        spec_pdf_sum(cs, dir) > 0 ==> v3_dot(dir, n) > 0,
    decreases cs.len(),
{
    if cs.len() > 0 {
        lemma_mixture_only_in_hemisphere(cs.drop_last(), n, dir);
        lemma_density_only_in_hemisphere(cs.last(), dir);
        lemma_pdf_sum_nonneg(cs.drop_last(), dir);
        lemma_component_pdf_nonneg(cs.last(), dir);
    }
}


/// Energy conservation for the non-diffuse events, end to end: whatever
/// event other than the light-sampling diffuse one a valid material's
/// entering scattering call selects, multiplying a non-negative
/// throughput by the returned signal cannot increase its magnitude.
pub proof fn lemma_event_energy_conserving(
    m: MaterialV,
    s: crate::scene::SceneV,
    wo: V3,
    n: V3,
    p: V3,
    u: int,
    v: int,
    rd: int,
    dir: V3,
    sig: V3,
    t: V3,
)
    requires
        spec_valid_material(m),
        spec_brdf_event(m, s, wo, n, p, u, v, rd, dir, sig),
        spec_filter_branch(
            crate::vec3::v3_component_average(spec_schlick(m, wo, n)),
            m.transparency,
            m.metal,
            rd,
        ) != 3,
        v3_non_negative(t),
        t.x <= i64::MAX,
        t.y <= i64::MAX,
        t.z <= i64::MAX,
    ensures
        v3_norm(v3_cmul(t, sig)) <= v3_norm(t),
{
    let q1 = crate::vec3::v3_component_average(spec_schlick(m, wo, n));
    let br = spec_filter_branch(q1, m.transparency, m.metal, rd);
    if br == 0 {
        lemma_reflect_signal_unit(m);
    }
    lemma_throughput_non_increasing(t, sig);
}

/// Energy conservation for the exit event: the volumetric tint of a
/// valid material cannot increase a non-negative throughput's magnitude.
pub proof fn lemma_exit_energy_conserving(
    m: MaterialV,
    wo: V3,
    n: V3,
    length: int,
    dir: V3,
    sig: V3,
    t: V3,
)
    requires
        spec_valid_material(m),
        spec_is_exit_event(m, wo, n, length, dir, sig),
        v3_non_negative(t),
        t.x <= i64::MAX,
        t.y <= i64::MAX,
        t.z <= i64::MAX,
    ensures
        v3_norm(v3_cmul(t, sig)) <= v3_norm(t),
{
    lemma_exit_signal_unit(m, length);
    lemma_throughput_non_increasing(t, sig);
}

} // verus!
