//! The integrator: per call, one pixel's radiance sample — a camera ray,
//! a bounded bounce loop over intersection and scattering, and the
//! accumulated result fed to the exposure buffer and the screen.

use vstd::prelude::*;
use crate::fx::{Fx, FX_ONE, fx_add, fx_div, fx_from_int, int_sqrt};
use crate::material::{
    SurfaceInteraction, SurfacePoint, spec_brdf_event, spec_is_exit_event, spec_valid_material,
    v3_non_negative, lemma_fx_mul_nonneg, lemma_brdf_signal_non_negative,
    lemma_exit_signal_non_negative,
};
use crate::ray::Ray;
use crate::rng::Rng;
use crate::scene::{Scene, SceneV, spec_nearest_hit, spec_scene_wf};
use crate::sensor::{Sensor, SensorDimensions};
use crate::vec3::{
    V3, Vec3, v3_add, v3_cmul, v3_dot, v3_neg, v3_normalize, v3_scale, v3_sub,
};

verus! {

/// A pixel sink the tracer writes finished display colors to.
pub trait Screen {
    fn write(&mut self, i: usize, r: u8, g: u8, b: u8);
}

/// Every primitive of the scene carries a physically valid material.
pub open spec fn spec_scene_valid(s: SceneV) -> bool {
    forall|i: int|
        0 <= i < s.objects.len() ==> spec_valid_material(#[trigger] s.objects[i].material)
}

/// What one scattering bounce at the hit `(ix, dist)` leaves behind: the
/// new direction and the throughput multiplied by the signal of the
/// event that the material's scattering call selected for these draws.
pub open spec fn spec_bounce_scatter(
    s: SceneV,
    o: V3,
    d: V3,
    ix: int,
    dist: int,
    u: int,
    v: int,
    pre_signal: V3,
    out_dir: V3,
    out_signal: V3,
) -> bool {
    let hitp = v3_add(o, v3_scale(d, dist));
    let normal = v3_normalize(v3_sub(hitp, s.objects[ix].center));
    let m = s.objects[ix].material;
    let wo = v3_neg(d);
    exists|sig: V3|
        {
            &&& out_signal == #[trigger] v3_cmul(pre_signal, sig)
            &&& if v3_dot(wo, normal) > 0 {
                exists|rd: int|
                    0 <= rd < FX_ONE && spec_brdf_event(
                        m,
                        s,
                        wo,
                        normal,
                        hitp,
                        u,
                        v,
                        rd,
                        out_dir,
                        sig,
                    )
            } else {
                spec_is_exit_event(m, wo, normal, dist, out_dir, sig)
            }
        }
}

/// Energy conservation carried to the bounce relation, on the
/// deterministic exit side: when the ray was leaving the surface, the
/// scattered throughput's magnitude cannot exceed the incoming one's,
/// for a valid material. (Entering the surface, the same follows from
/// the event-level conservation lemmas for every selected event except
/// the light-sampling diffuse one, whose mixture weight is an
/// importance-sampling ratio rather than an attenuation.)
pub proof fn lemma_bounce_exit_throughput(
    s: SceneV,
    o: V3,
    d: V3,
    ix: int,
    dist: int,
    u: int,
    v: int,
    pre_signal: V3,
    out_dir: V3,
    out_signal: V3,
)
    requires
        spec_bounce_scatter(s, o, d, ix, dist, u, v, pre_signal, out_dir, out_signal),
        0 <= ix < s.objects.len(),
        spec_valid_material(s.objects[ix].material),
        v3_non_negative(pre_signal),
        pre_signal.x <= i64::MAX,
        pre_signal.y <= i64::MAX,
        pre_signal.z <= i64::MAX,
        v3_dot(
            v3_neg(d),
            v3_normalize(v3_sub(v3_add(o, v3_scale(d, dist)), s.objects[ix].center)),
        ) <= 0,
    ensures
        crate::vec3::v3_norm(out_signal) <= crate::vec3::v3_norm(pre_signal),
{
    let hitp = v3_add(o, v3_scale(d, dist));
    let normal = v3_normalize(v3_sub(hitp, s.objects[ix].center));
    let m = s.objects[ix].material;
    let wo = v3_neg(d);
    let sig = choose|sig: V3|
        {
            &&& out_signal == #[trigger] v3_cmul(pre_signal, sig)
            &&& if v3_dot(wo, normal) > 0 {
                exists|rd: int|
                    0 <= rd < FX_ONE && spec_brdf_event(
                        m,
                        s,
                        wo,
                        normal,
                        hitp,
                        u,
                        v,
                        rd,
                        out_dir,
                        sig,
                    )
            } else {
                spec_is_exit_event(m, wo, normal, dist, out_dir, sig)
            }
        };
    crate::material::lemma_exit_energy_conserving(m, wo, normal, dist, out_dir, sig, pre_signal);
}

/// The background seen through a full throughput is exactly the
/// background color.
proof fn lemma_background_through_white()
    ensures
        v3_cmul(
            V3 { x: FX_ONE as int, y: 0, z: 0 },
            V3 { x: FX_ONE as int, y: FX_ONE as int, z: FX_ONE as int },
        ) == (V3 { x: FX_ONE as int, y: 0, z: 0 }),
{
    assert(crate::fx::div_tz((FX_ONE as int) * (FX_ONE as int), FX_ONE as int) == FX_ONE as int)
        by (nonlinear_arith);
    assert(crate::fx::div_tz(0 * (FX_ONE as int), FX_ONE as int) == 0) by (nonlinear_arith);
}

/// A moment of a light path: where it is, where it is headed, and the
/// throughput accumulated so far.
pub ghost struct PathState {
    pub o: V3,
    pub d: V3,
    pub g: V3,
}

/// One step of a path: from a live state, a miss collects the background
/// through the throughput and collapses it; a hit at the nearest
/// primitive collects its emission through the throughput, moves to the
/// hit point, and scatters by the bounce relation under the step's
/// sub-pixel draws.
pub open spec fn spec_path_step(
    s: SceneV,
    st: PathState,
    u: int,
    v: int,
    st2: PathState,
    c: V3,
) -> bool {
    let nh = spec_nearest_hit(s, st.o, st.d);
    &&& st.g != (V3 { x: 0, y: 0, z: 0 })
    &&& if nh is None {
        &&& c == v3_cmul(V3 { x: FX_ONE as int, y: 0, z: 0 }, st.g)
        &&& st2 == (PathState { o: st.o, d: st.d, g: V3 { x: 0, y: 0, z: 0 } })
    } else {
        let ix = (nh->0).0;
        let dist = (nh->0).1;
        &&& c == v3_cmul(s.objects[ix].material.light, st.g)
        &&& st2.o == v3_add(st.o, v3_scale(st.d, dist))
        &&& spec_bounce_scatter(s, st.o, st.d, ix, dist, u, v, st.g, st2.d, st2.g)
    }
}

/// A whole path: consecutive states from a full-throughput start, each
/// consecutive pair a path step with its draws and contribution.
pub open spec fn spec_path_trace(
    s: SceneV,
    states: Seq<PathState>,
    us: Seq<int>,
    vs: Seq<int>,
    cs: Seq<V3>,
) -> bool {
    &&& states.len() == cs.len() + 1
    &&& us.len() == cs.len()
    &&& vs.len() == cs.len()
    &&& states[0].g == (V3 { x: FX_ONE as int, y: FX_ONE as int, z: FX_ONE as int })
    &&& forall|k: int|
        0 <= k < cs.len() ==> #[trigger] spec_path_step(
            s,
            states[k],
            us[k],
            vs[k],
            states[k + 1],
            cs[k],
        )
}

/// The componentwise sum of a sequence of contributions.
pub open spec fn spec_v3_sum(cs: Seq<V3>) -> V3
    decreases cs.len(),
{
    if cs.len() == 0 {
        V3 { x: 0, y: 0, z: 0 }
    } else {
        v3_add(spec_v3_sum(cs.drop_last()), cs.last())
    }
}

/// `e` is the energy of one complete path from `(o0, d0)`: the sum of
/// the contributions of a trace that starts with the given sub-pixel
/// draws, refreshes them with unit draws afterwards, and stops at the
/// bounce bound or when the throughput has collapsed.
pub open spec fn spec_traced_path(
    s: SceneV,
    o0: V3,
    d0: V3,
    fu: int,
    fv: int,
    bounces: int,
    e: V3,
) -> bool {
    exists|states: Seq<PathState>, us: Seq<int>, vs: Seq<int>, cs: Seq<V3>|
        {
            &&& #[trigger] spec_path_trace(s, states, us, vs, cs)
            &&& states[0].o == o0
            &&& states[0].d == d0
            &&& cs.len() <= bounces
            &&& cs.len() < bounces ==> states.last().g == (V3 { x: 0, y: 0, z: 0 })
            &&& cs.len() >= 1 ==> us[0] == fu && vs[0] == fv
            &&& forall|k: int| 1 <= k < us.len() ==> 0 <= #[trigger] us[k] < FX_ONE
            &&& forall|k: int| 1 <= k < vs.len() ==> 0 <= #[trigger] vs[k] < FX_ONE
            &&& e == spec_v3_sum(cs)
        }
}

/// One light path in flight: the current ray, the throughput accumulated
/// so far, and the sub-pixel draws for the next scattering event.
pub struct LightPath<'a> {
    pub scene: &'a Scene,
    pub ray: Ray,
    pub signal: Vec3,
    pub uv: (Fx, Fx),
}

impl<'a> LightPath<'a> {
    /// A fresh path along `ray` with full throughput.
    pub fn new(scene: &'a Scene, ray: Ray, first_uv: (Fx, Fx)) -> (r: LightPath<'a>)
        ensures
            r.scene == scene,
            r.ray == ray,
            r.uv == first_uv,
            r.signal@ == (V3 { x: FX_ONE as int, y: FX_ONE as int, z: FX_ONE as int }),
    {
        LightPath { scene, ray, signal: Vec3::ones(), uv: first_uv }
    }

    /// Advance the path one bounce: on a hit, scatter and hand back the
    /// emission seen through the current throughput; on a miss, hand
    /// back the background and collapse the throughput. `None` once the
    /// throughput has collapsed to zero.
    #[verifier::rlimit(100)]
    pub fn next(&mut self, rng: &mut Rng) -> (r: Option<Vec3>)
        requires
            spec_scene_wf(old(self).scene@),
            old(self).scene@.lights.len() < 0x7fff_ffff,
        ensures
            final(self).scene == old(self).scene,
            r is None <==> old(self).signal@ == (V3 { x: 0, y: 0, z: 0 }),
            r is None ==> *final(self) == *old(self),
            ({
                let o = old(self).ray.origin@;
                let d = old(self).ray.direction@;
                let nh = spec_nearest_hit(old(self).scene@, o, d);
                &&& (old(self).signal@ != (V3 { x: 0, y: 0, z: 0 }) && nh is None) ==> {
                    &&& r is Some
                    &&& r->0@ == v3_cmul(
                        V3 { x: crate::fx::FX_ONE as int, y: 0, z: 0 },
                        old(self).signal@,
                    )
                    &&& final(self).signal@ == (V3 { x: 0, y: 0, z: 0 })
                    &&& final(self).ray == old(self).ray
                    &&& final(self).uv == old(self).uv
                }
                &&& (old(self).signal@ != (V3 { x: 0, y: 0, z: 0 }) && nh is Some) ==> {
                    &&& r is Some
                    &&& r->0@ == v3_cmul(
                        old(self).scene@.objects[(nh->0).0].material.light,
                        old(self).signal@,
                    )
                    &&& final(self).ray.origin@ == v3_add(o, v3_scale(d, (nh->0).1))
                    &&& 0 <= final(self).uv.0 < FX_ONE
                    &&& 0 <= final(self).uv.1 < FX_ONE
                    &&& spec_bounce_scatter(
                        old(self).scene@,
                        o,
                        d,
                        (nh->0).0,
                        (nh->0).1,
                        old(self).uv.0 as int,
                        old(self).uv.1 as int,
                        old(self).signal@,
                        final(self).ray.direction@,
                        final(self).signal@,
                    )
                }
            }),
            spec_scene_valid(old(self).scene@) && v3_non_negative(old(self).signal@) ==> {
                &&& v3_non_negative(final(self).signal@)
                &&& r is Some ==> v3_non_negative(r->0@)
            },
    {
        if self.signal == Vec3::zeros() {
            return None;
        }
        let ghost pre_signal = self.signal@;
        match self.scene.intersect(&self.ray) {
            Some(intersect) => {
                let interaction = SurfaceInteraction {
                    wo: self.ray.direction.neg(),
                    surface: SurfacePoint { p: intersect.hit, n: intersect.normal },
                };
                let ghost u0 = self.uv.0 as int;
                let ghost v0 = self.uv.1 as int;
                let ghost sv = self.scene@;
                let ghost o = self.ray.origin@;
                let ghost d = self.ray.direction@;
                let ghost ix = intersect.object_index as int;
                let ghost dist = intersect.distance as int;
                let ghost wo = v3_neg(d);
                let ghost hitp = v3_add(o, v3_scale(d, dist));
                let ghost normal = v3_normalize(v3_sub(hitp, sv.objects[ix].center));
                let ghost m = sv.objects[ix].material;
                let b = intersect.material.bsdf(
                    self.scene,
                    interaction,
                    intersect.distance,
                    self.uv.0,
                    self.uv.1,
                    rng,
                );
                self.uv = (rng.next_unit(), rng.next_unit());
                let contribution = intersect.material.emit().component_mul(&self.signal);
                self.ray = Ray { origin: intersect.hit, direction: b.direction };
                self.signal = self.signal.component_mul(&b.signal);
                proof {
                    assert(spec_nearest_hit(sv, o, d) == Some((ix, dist)));
                    assert(interaction.wo@ == wo);
                    assert(interaction.surface.n@ == normal);
                    assert(interaction.surface.p@ == hitp);
                    assert(intersect.material@ == m);
                    let out_dir = self.ray.direction@;
                    let out_sig = self.signal@;
                    assert(out_sig == v3_cmul(pre_signal, b.signal@));
                    if v3_dot(wo, normal) > 0 {
                        let rd = choose|rd: int|
                            0 <= rd < FX_ONE && spec_brdf_event(
                                m,
                                sv,
                                wo,
                                normal,
                                hitp,
                                u0,
                                v0,
                                rd,
                                b.direction@,
                                b.signal@,
                            );
                        assert(spec_brdf_event(
                            m,
                            sv,
                            wo,
                            normal,
                            hitp,
                            u0,
                            v0,
                            rd,
                            out_dir,
                            b.signal@,
                        ));
                        assert(exists|rd0: int|
                            0 <= rd0 < FX_ONE && spec_brdf_event(
                                m,
                                sv,
                                wo,
                                normal,
                                hitp,
                                u0,
                                v0,
                                rd0,
                                out_dir,
                                b.signal@,
                            ));
                        if spec_scene_valid(sv) && v3_non_negative(pre_signal) {
                            lemma_brdf_signal_non_negative(
                                m,
                                sv,
                                wo,
                                normal,
                                hitp,
                                u0,
                                v0,
                                rd,
                                b.direction@,
                                b.signal@,
                            );
                        }
                    } else {
                        assert(spec_is_exit_event(m, wo, normal, dist, out_dir, b.signal@));
                        if spec_scene_valid(sv) && v3_non_negative(pre_signal) {
                            lemma_exit_signal_non_negative(
                                m,
                                wo,
                                normal,
                                dist,
                                b.direction@,
                                b.signal@,
                            );
                        }
                    }
                    assert(spec_bounce_scatter(
                        sv,
                        o,
                        d,
                        ix,
                        dist,
                        u0,
                        v0,
                        pre_signal,
                        out_dir,
                        out_sig,
                    )) by {
                        assert(out_sig == v3_cmul(pre_signal, b.signal@));
                    }
                    if spec_scene_valid(sv) && v3_non_negative(pre_signal) {
                        assert(spec_valid_material(m));
                        lemma_fx_mul_nonneg(m.light.x, pre_signal.x);
                        lemma_fx_mul_nonneg(m.light.y, pre_signal.y);
                        lemma_fx_mul_nonneg(m.light.z, pre_signal.z);
                        lemma_fx_mul_nonneg(pre_signal.x, b.signal@.x);
                        lemma_fx_mul_nonneg(pre_signal.y, b.signal@.y);
                        lemma_fx_mul_nonneg(pre_signal.z, b.signal@.z);
                    }
                }
                Some(contribution)
            },
            None => {
                let contribution = self.scene.bg(&self.ray).component_mul(&self.signal);
                self.signal = Vec3::zeros();
                proof {
                    if v3_non_negative(pre_signal) {
                        lemma_fx_mul_nonneg(FX_ONE as int, pre_signal.x);
                        lemma_fx_mul_nonneg(0, pre_signal.y);
                        lemma_fx_mul_nonneg(0, pre_signal.z);
                    }
                }
                Some(contribution)
            },
        }
    }

}

/// `e` is the energy of the path traced for stratum `cell` of an
/// `n` by `n` grid: the path's first sub-pixel draws are jittered inside
/// that stratum.
pub open spec fn spec_cell_sample(
    s: SceneV,
    o0: V3,
    d0: V3,
    n: int,
    cell: int,
    bounces: int,
    e: V3,
) -> bool {
    exists|ju: int, jv: int|
        {
            &&& 0 <= ju < FX_ONE
            &&& 0 <= jv < FX_ONE
            &&& #[trigger] spec_traced_path(
                s,
                o0,
                d0,
                crate::fx::fx_div_spec(
                    crate::fx::fx_add_spec(crate::fx::fx_from_int_spec(cell / n), ju),
                    crate::fx::fx_from_int_spec(n),
                ),
                crate::fx::fx_div_spec(
                    crate::fx::fx_add_spec(crate::fx::fx_from_int_spec(cell % n), jv),
                    crate::fx::fx_from_int_spec(n),
                ),
                bounces,
                e,
            )
        }
}

/// `result` is one radiance sample of the ray: the average, over the
/// n by n stratified grid with n the integer square root of the sample
/// count, of one traced path energy per stratum.
pub open spec fn spec_stratified_sample(
    s: SceneV,
    o0: V3,
    d0: V3,
    samples: int,
    bounces: int,
    result: V3,
) -> bool {
    let n = crate::fx::spec_isqrt(samples);
    exists|es: Seq<V3>|
        {
            &&& es.len() == n * n
            &&& forall|k: int|
                0 <= k < es.len() ==> spec_cell_sample(s, o0, d0, n, k, bounces, #[trigger] es[k])
            &&& result == (V3 {
                x: crate::fx::fx_div_int_spec(spec_v3_sum(es).x, n * n),
                y: crate::fx::fx_div_int_spec(spec_v3_sum(es).y, n * n),
                z: crate::fx::fx_div_int_spec(spec_v3_sum(es).z, n * n),
            })
        }
}

/// A per-pixel sampler: a grid of jittered sub-pixel cells, each traced
/// through the bounce loop, averaged into one radiance sample.
pub struct StratisfiedImageSampler<'a> {
    pub scene: &'a Scene,
    pub ray: Ray,
    pub samples: u32,
    pub bounces: usize,
}

impl<'a> StratisfiedImageSampler<'a> {
    /// A sampler for `samples` stratified cells and at most `bounces`
    /// path segments each.
    pub fn new(scene: &'a Scene, ray: Ray, samples: u32, bounces: usize) -> (r:
        StratisfiedImageSampler<'a>)
        ensures
            r.scene == scene,
            r.ray == ray,
            r.samples == samples,
            r.bounces == bounces,
    {
        StratisfiedImageSampler { scene, ray, samples, bounces }
    }

    /// One radiance sample: the average over the n by n stratified grid
    /// of one traced path energy per stratum, each path's first draws
    /// jittered inside its stratum. A ray that misses every primitive
    /// yields exactly the background color, since every cell's path
    /// collects exactly that.
    #[verifier::rlimit(100)]
    pub fn next_sample(&self, rng: &mut Rng) -> (r: Vec3)
        requires
            self.samples >= 1,
            spec_scene_wf(self.scene@),
            self.scene@.lights.len() < 0x7fff_ffff,
        ensures
            spec_scene_valid(self.scene@) ==> v3_non_negative(r@),
            spec_nearest_hit(self.scene@, self.ray.origin@, self.ray.direction@) is None
                && self.bounces >= 1 && self.samples <= 0x7fff_ffff ==> r@ == (V3 {
                x: FX_ONE as int,
                y: 0,
                z: 0,
            }),
            spec_stratified_sample(
                self.scene@,
                self.ray.origin@,
                self.ray.direction@,
                self.samples as int,
                self.bounces as int,
                r@,
            ),
            self.samples == 1 ==> spec_cell_sample(
                self.scene@,
                self.ray.origin@,
                self.ray.direction@,
                1,
                0,
                self.bounces as int,
                r@,
            ),
    {
        let ghost allmiss = spec_nearest_hit(
            self.scene@,
            self.ray.origin@,
            self.ray.direction@,
        ) is None && self.bounces >= 1 && self.samples <= 0x7fff_ffff;
        let n: u32 = side_of(self.samples);
        let nf = fx_from_int(n as i64);
        let mut total = Vec3::zeros();
        let mut u: u32 = 0;
        let ghost mut es: Seq<V3> = Seq::empty();
        while u < n
            invariant
                spec_scene_wf(self.scene@),
                self.scene@.lights.len() < 0x7fff_ffff,
                spec_scene_valid(self.scene@) ==> v3_non_negative(total@),
                1 <= n <= 0x1_0000,
                (n as int) * (n as int) <= self.samples,
                n as int == crate::fx::spec_isqrt(self.samples as int),
                nf as int == crate::fx::fx_from_int_spec(n as int),
                u <= n,
                es.len() == (u as int) * (n as int),
                forall|k: int|
                    0 <= k < es.len() ==> -(i64::MAX as int) <= (#[trigger] es[k]).x
                        <= i64::MAX && -(i64::MAX as int) <= es[k].y <= i64::MAX && -(
                    i64::MAX as int) <= es[k].z <= i64::MAX,
                forall|k: int|
                    0 <= k < es.len() ==> spec_cell_sample(
                        self.scene@,
                        self.ray.origin@,
                        self.ray.direction@,
                        n as int,
                        k,
                        self.bounces as int,
                        #[trigger] es[k],
                    ),
                total@ == spec_v3_sum(es),
                allmiss == (spec_nearest_hit(
                    self.scene@,
                    self.ray.origin@,
                    self.ray.direction@,
                ) is None && self.bounces >= 1 && self.samples <= 0x7fff_ffff),
                allmiss ==> total@ == (V3 {
                    x: (u as int) * (n as int) * (FX_ONE as int),
                    y: 0,
                    z: 0,
                }),
            decreases n - u,
        {
            let mut v: u32 = 0;
            while v < n
                invariant
                    spec_scene_wf(self.scene@),
                    self.scene@.lights.len() < 0x7fff_ffff,
                    spec_scene_valid(self.scene@) ==> v3_non_negative(total@),
                    1 <= n <= 0x1_0000,
                    (n as int) * (n as int) <= self.samples,
                    n as int == crate::fx::spec_isqrt(self.samples as int),
                    nf as int == crate::fx::fx_from_int_spec(n as int),
                    u < n,
                    v <= n,
                    es.len() == (u as int) * (n as int) + (v as int),
                    forall|k: int|
                        0 <= k < es.len() ==> -(i64::MAX as int) <= (#[trigger] es[k]).x
                            <= i64::MAX && -(i64::MAX as int) <= es[k].y <= i64::MAX && -(
                        i64::MAX as int) <= es[k].z <= i64::MAX,
                    forall|k: int|
                        0 <= k < es.len() ==> spec_cell_sample(
                            self.scene@,
                            self.ray.origin@,
                            self.ray.direction@,
                            n as int,
                            k,
                            self.bounces as int,
                            #[trigger] es[k],
                        ),
                    total@ == spec_v3_sum(es),
                    allmiss == (spec_nearest_hit(
                        self.scene@,
                        self.ray.origin@,
                        self.ray.direction@,
                    ) is None && self.bounces >= 1 && self.samples <= 0x7fff_ffff),
                    allmiss ==> total@ == (V3 {
                        x: ((u as int) * (n as int) + (v as int)) * (FX_ONE as int),
                        y: 0,
                        z: 0,
                    }),
                decreases n - v,
            {
                let ju = rng.next_unit();
                let jv = rng.next_unit();
                let fu = fx_div(fx_add(fx_from_int(u as i64), ju), nf);
                let fv = fx_div(fx_add(fx_from_int(v as i64), jv), nf);
                let energy = self.path_energy(fu, fv, rng);
                proof {
                    let cell = (u as int) * (n as int) + (v as int);
                    assert(cell / (n as int) == u as int && cell % (n as int) == v as int)
                        by (nonlinear_arith)
                        requires
                            0 <= (u as int),
                            0 <= (v as int) < (n as int),
                            cell == (u as int) * (n as int) + (v as int),
                    ;
                    assert(spec_cell_sample(
                        self.scene@,
                        self.ray.origin@,
                        self.ray.direction@,
                        n as int,
                        cell,
                        self.bounces as int,
                        energy@,
                    )) by {
                        assert(spec_traced_path(
                            self.scene@,
                            self.ray.origin@,
                            self.ray.direction@,
                            crate::fx::fx_div_spec(
                                crate::fx::fx_add_spec(
                                    crate::fx::fx_from_int_spec(cell / (n as int)),
                                    ju as int,
                                ),
                                crate::fx::fx_from_int_spec(n as int),
                            ),
                            crate::fx::fx_div_spec(
                                crate::fx::fx_add_spec(
                                    crate::fx::fx_from_int_spec(cell % (n as int)),
                                    jv as int,
                                ),
                                crate::fx::fx_from_int_spec(n as int),
                            ),
                            self.bounces as int,
                            energy@,
                        ));
                    }
                    let ghost old_es = es;
                    es = es.push(energy@);
                    assert(es.drop_last() =~= old_es);
                    assert(spec_v3_sum(es) == v3_add(spec_v3_sum(old_es), energy@));
                    if allmiss {
                        assert(0 <= cell && cell + 1 <= (n as int) * (n as int))
                            by (nonlinear_arith)
                            requires
                                0 <= (u as int) < (n as int),
                                0 <= (v as int) < (n as int),
                                cell == (u as int) * (n as int) + (v as int),
                        ;
                        assert((cell + 1) * (FX_ONE as int) == (u as int) * (n as int) * (
                        FX_ONE as int) + (v as int) * (FX_ONE as int) + (FX_ONE as int))
                            by (nonlinear_arith)
                            requires
                                cell == (u as int) * (n as int) + (v as int),
                        ;
                        assert(cell * (FX_ONE as int) == (u as int) * (n as int) * (
                        FX_ONE as int) + (v as int) * (FX_ONE as int)) by (nonlinear_arith)
                            requires
                                cell == (u as int) * (n as int) + (v as int),
                        ;
                        assert((cell + 1) * (FX_ONE as int) <= i64::MAX) by (nonlinear_arith)
                            requires
                                0 <= cell + 1 <= 0x7fff_ffff,
                        ;
                    }
                }
                total = total.add(&energy);
                proof {
                    if spec_scene_valid(self.scene@) {
                        assert(v3_non_negative(total@));
                    }
                }
                v = v + 1;
            }
            proof {
                assert((u as int) * (n as int) + (n as int) == ((u as int) + 1) * (n as int))
                    by (nonlinear_arith);
                if allmiss {
                    assert(((u as int) * (n as int) + (n as int)) * (FX_ONE as int) == ((
                    u as int) + 1) * (n as int) * (FX_ONE as int)) by (nonlinear_arith);
                }
            }
            u = u + 1;
        }
        proof {
            assert(1 <= (n as int) * (n as int) <= 0x1_0000_0000_0000) by (nonlinear_arith)
                requires
                    1 <= n <= 0x1_0000,
            ;
            if allmiss {
                assert((n as int) * (n as int) * (FX_ONE as int) <= i64::MAX)
                    by (nonlinear_arith)
                    requires
                        1 <= (n as int) * (n as int) <= 0x7fff_ffff,
                ;
                assert(crate::fx::div_tz((n as int) * (n as int) * (FX_ONE as int), (n as int)
                    * (n as int)) == FX_ONE as int) by (nonlinear_arith)
                    requires
                        1 <= (n as int) * (n as int),
                ;
            }
        }
        let nn: u64 = (n as u64) * (n as u64);
        let r = total.div_int(nn as i64);
        proof {
            assert(es.len() == (n as int) * (n as int));
            assert(spec_stratified_sample(
                self.scene@,
                self.ray.origin@,
                self.ray.direction@,
                self.samples as int,
                self.bounces as int,
                r@,
            )) by {
                assert(forall|k: int|
                    0 <= k < es.len() ==> spec_cell_sample(
                        self.scene@,
                        self.ray.origin@,
                        self.ray.direction@,
                        n as int,
                        k,
                        self.bounces as int,
                        #[trigger] es[k],
                    ));
            }
            if self.samples == 1 {
                assert(n == 1);
                assert(es.len() == 1);
                assert(es.drop_last() =~= Seq::<V3>::empty());
                assert(es.drop_last() == Seq::<V3>::empty());
                assert(spec_v3_sum(Seq::<V3>::empty()) == (V3 { x: 0, y: 0, z: 0 }));
                assert(es.last() == es[0]);
                assert(spec_v3_sum(es) == v3_add(V3 { x: 0, y: 0, z: 0 }, es[0]));
                assert(spec_v3_sum(es) == es[0]);
                assert(crate::fx::div_tz(es[0].x, 1) == es[0].x && crate::fx::div_tz(
                    es[0].y,
                    1,
                ) == es[0].y && crate::fx::div_tz(es[0].z, 1) == es[0].z)
                    by (nonlinear_arith);
                assert(r@ == es[0]);
            }
        }
        r
    }

    /// The energy of one path: contributions summed over at most the
    /// configured number of bounces, as one complete trace. A ray that
    /// misses every primitive collects exactly the background color,
    /// once.
    #[verifier::rlimit(100)]
    fn path_energy(&self, fu: Fx, fv: Fx, rng: &mut Rng) -> (r: Vec3)
        requires
            spec_scene_wf(self.scene@),
            self.scene@.lights.len() < 0x7fff_ffff,
        ensures
            spec_scene_valid(self.scene@) ==> v3_non_negative(r@),
            spec_nearest_hit(self.scene@, self.ray.origin@, self.ray.direction@) is None
                && self.bounces >= 1 ==> r@ == (V3 { x: FX_ONE as int, y: 0, z: 0 }),
            spec_traced_path(
                self.scene@,
                self.ray.origin@,
                self.ray.direction@,
                fu as int,
                fv as int,
                self.bounces as int,
                r@,
            ),
            -(i64::MAX as int) <= r@.x <= i64::MAX,
            -(i64::MAX as int) <= r@.y <= i64::MAX,
            -(i64::MAX as int) <= r@.z <= i64::MAX,
    {
        let ghost allmiss = spec_nearest_hit(
            self.scene@,
            self.ray.origin@,
            self.ray.direction@,
        ) is None;
        let mut path = LightPath::new(self.scene, self.ray, (fu, fv));
        let mut energy = Vec3::zeros();
        let mut b: usize = 0;
        let ghost mut states: Seq<PathState> = seq![
            PathState {
                o: self.ray.origin@,
                d: self.ray.direction@,
                g: V3 { x: FX_ONE as int, y: FX_ONE as int, z: FX_ONE as int },
            },
        ];
        let ghost mut us: Seq<int> = Seq::empty();
        let ghost mut vs: Seq<int> = Seq::empty();
        let ghost mut cs: Seq<V3> = Seq::empty();
        while b < self.bounces
            invariant
                spec_scene_wf(path.scene@),
                path.scene@.lights.len() < 0x7fff_ffff,
                path.scene == self.scene,
                allmiss == (spec_nearest_hit(
                    self.scene@,
                    self.ray.origin@,
                    self.ray.direction@,
                ) is None),
                spec_scene_valid(self.scene@) ==> v3_non_negative(energy@) && v3_non_negative(
                    path.signal@,
                ),
                b <= self.bounces,
                spec_path_trace(self.scene@, states, us, vs, cs),
                states[0].o == self.ray.origin@,
                states[0].d == self.ray.direction@,
                states.last().o == path.ray.origin@,
                states.last().d == path.ray.direction@,
                states.last().g == path.signal@,
                cs.len() <= b,
                b > cs.len() ==> path.signal@ == (V3 { x: 0, y: 0, z: 0 }),
                cs.len() >= 1 ==> us[0] == fu as int && vs[0] == fv as int,
                cs.len() == 0 ==> path.uv.0 == fu && path.uv.1 == fv,
                cs.len() >= 1 && path.signal@ != (V3 { x: 0, y: 0, z: 0 }) ==> 0 <= path.uv.0
                    < FX_ONE && 0 <= path.uv.1 < FX_ONE,
                forall|k: int| 1 <= k < us.len() ==> 0 <= #[trigger] us[k] < FX_ONE,
                forall|k: int| 1 <= k < vs.len() ==> 0 <= #[trigger] vs[k] < FX_ONE,
                energy@ == spec_v3_sum(cs),
                -(i64::MAX as int) <= energy@.x <= i64::MAX,
                -(i64::MAX as int) <= energy@.y <= i64::MAX,
                -(i64::MAX as int) <= energy@.z <= i64::MAX,
                allmiss ==> if b == 0 {
                    energy@ == (V3 { x: 0, y: 0, z: 0 }) && path.signal@ == (V3 {
                        x: FX_ONE as int,
                        y: FX_ONE as int,
                        z: FX_ONE as int,
                    }) && path.ray == self.ray
                } else {
                    energy@ == (V3 { x: FX_ONE as int, y: 0, z: 0 }) && path.signal@ == (V3 {
                        x: 0,
                        y: 0,
                        z: 0,
                    })
                },
            decreases self.bounces - b,
        {
            proof {
                if allmiss && b == 0 {
                    lemma_background_through_white();
                }
            }
            let ghost pre_state = PathState {
                o: path.ray.origin@,
                d: path.ray.direction@,
                g: path.signal@,
            };
            let ghost pu = path.uv.0 as int;
            let ghost pv = path.uv.1 as int;
            match path.next(rng) {
                Some(contribution) => {
                    proof {
                        let new_state = PathState {
                            o: path.ray.origin@,
                            d: path.ray.direction@,
                            g: path.signal@,
                        };
                        assert(spec_path_step(
                            self.scene@,
                            pre_state,
                            pu,
                            pv,
                            new_state,
                            contribution@,
                        ));
                        let ghost old_states = states;
                        let ghost old_cs = cs;
                        states = states.push(new_state);
                        us = us.push(pu);
                        vs = vs.push(pv);
                        cs = cs.push(contribution@);
                        assert(forall|k: int|
                            0 <= k < old_cs.len() ==> #[trigger] spec_path_step(
                                self.scene@,
                                states[k],
                                us[k],
                                vs[k],
                                states[k + 1],
                                cs[k],
                            ));
                        assert(cs.drop_last() =~= old_cs);
                        assert(spec_v3_sum(cs) == v3_add(spec_v3_sum(old_cs), contribution@));
                    }
                    energy = energy.add(&contribution);
                    b = b + 1;
                },
                None => {
                    b = self.bounces;
                },
            }
        }
        proof {
            assert(spec_traced_path(
                self.scene@,
                self.ray.origin@,
                self.ray.direction@,
                fu as int,
                fv as int,
                self.bounces as int,
                energy@,
            )) by {
                assert(spec_path_trace(self.scene@, states, us, vs, cs));
            }
        }
        energy
    }
}

/// The side of the stratification grid: the integer square root of the
/// sample count.
fn side_of(samples: u32) -> (n: u32)
    requires
        samples >= 1,
    ensures
        1 <= n <= samples,
        n <= 0x1_0000,
        (n as int) * (n as int) <= samples,
        n as int == crate::fx::spec_isqrt(samples as int),
{
    let n64 = int_sqrt(samples as u64);
    proof {
        crate::fx::lemma_isqrt_bounds(samples as int);
        let r = crate::fx::spec_isqrt(samples as int);
        assert(r <= samples && r >= 1 && r <= 0x1_0000) by (nonlinear_arith)
            requires
                r >= 0,
                r * r <= samples as int,
                1 <= samples <= 0xffff_ffff,
                (samples as int) < (r + 1) * (r + 1),
        ;
    }
    n64 as u32
}


/// The model of the incremental tracer: its configuration, exposure
/// buffer and raster cursor.
pub ghost struct TracerV {
    pub bounces: int,
    pub width: int,
    pub height: int,
    pub sensor: crate::sensor::SensorV,
    pub sample_count: int,
}

/// The incremental integrator: each call adds one sample to the next
/// pixel in raster order, wrapping around the image.
pub struct SingleThreadedTracer {
    bounces: u32,
    dimensions: SensorDimensions,
    sensor: Sensor,
    sample_count: usize,
}

impl View for SingleThreadedTracer {
    type V = TracerV;

    closed spec fn view(&self) -> TracerV {
        TracerV {
            bounces: self.bounces as int,
            width: self.dimensions.width as int,
            height: self.dimensions.height as int,
            sensor: self.sensor@,
            sample_count: self.sample_count as int,
        }
    }
}

/// The tracer's invariant: a non-empty image of bounded size whose
/// exposure buffer holds one entry per pixel.
pub open spec fn spec_tracer_wf(t: TracerV) -> bool {
    &&& 0 < t.width <= 0x7fff_ffff
    &&& 0 < t.height <= 0x7fff_ffff
    &&& t.width * t.height <= usize::MAX
    &&& t.sensor.pixels.len() == t.width * t.height
}

impl SingleThreadedTracer {
    /// A tracer over a cleared exposure buffer; `gamma` is inverted once
    /// here for the read-out.
    pub fn new(bounces: u32, gamma: Fx, width: usize, height: usize) -> (t: SingleThreadedTracer)
        requires
            0 < width <= 0x7fff_ffff,
            0 < height <= 0x7fff_ffff,
            width * height <= usize::MAX,
        ensures
            spec_tracer_wf(t@),
            t@.bounces == bounces as int,
            t@.width == width as int,
            t@.height == height as int,
            t@.sample_count == 0,
            t@.sensor.reciprocal_gamma == crate::fx::fx_div_spec(FX_ONE as int, gamma as int),
            forall|i: int|
                0 <= i < t@.sensor.pixels.len() ==> #[trigger] t@.sensor.pixels[i].count == 0,
    {
        let dimensions = SensorDimensions { width, height };
        SingleThreadedTracer {
            bounces,
            dimensions,
            sensor: Sensor::new(dimensions, fx_div(FX_ONE, gamma)),
            sample_count: 0,
        }
    }

    /// Trace one sample for the pixel under the raster cursor, add it to
    /// the exposure buffer, hand the pixel's fresh display color to the
    /// screen, and advance the cursor.
    pub fn update<S: Screen>(&mut self, scene: &Scene, screen: &mut S, rng: &mut Rng)
        requires
            spec_tracer_wf(old(self)@),
            spec_scene_wf(scene@),
            scene@.lights.len() < 0x7fff_ffff,
        ensures
            spec_tracer_wf(final(self)@),
            final(self)@.bounces == old(self)@.bounces,
            final(self)@.width == old(self)@.width,
            final(self)@.height == old(self)@.height,
            final(self)@.sensor.reciprocal_gamma == old(self)@.sensor.reciprocal_gamma,
            final(self)@.sample_count == if old(self)@.sample_count < usize::MAX {
                old(self)@.sample_count + 1
            } else {
                0
            },
            ({
                let ix = old(self)@.sample_count % (old(self)@.width * old(self)@.height);
                let before = old(self)@.sensor.pixels[ix];
                let after = final(self)@.sensor.pixels[ix];
                &&& final(self)@.sensor.pixels.len() == old(self)@.sensor.pixels.len()
                &&& after.count == if before.count < u32::MAX {
                    before.count + 1
                } else {
                    before.count
                }
                &&& spec_scene_valid(scene@) ==> {
                    &&& after.color.x >= before.color.x
                    &&& after.color.y >= before.color.y
                    &&& after.color.z >= before.color.z
                }
                &&& forall|j: int|
                    0 <= j < old(self)@.sensor.pixels.len() && j != ix
                        ==> final(self)@.sensor.pixels[j] == #[trigger] old(
                        self,
                    )@.sensor.pixels[j]
            }),
            ({
                let w = old(self)@.width;
                let h = old(self)@.height;
                let wrapped = old(self)@.sample_count % (w * h);
                let px = wrapped % w;
                let py = wrapped / w;
                (old(self)@.bounces >= 1 && forall|ju: int, jv: int, au: int, av: int|
                    0 <= ju < FX_ONE && 0 <= jv < FX_ONE && 0 <= au < FX_ONE && 0 <= av
                        < FX_ONE ==> spec_nearest_hit(
                        scene@,
                        scene@.camera.position,
                        #[trigger] crate::camera::spec_camera_ray(
                            scene@.camera,
                            px,
                            py,
                            w,
                            h,
                            ju,
                            jv,
                            au,
                            av,
                        ),
                    ) is None) ==> final(self)@.sensor.pixels[wrapped].color == v3_add(
                    old(self)@.sensor.pixels[wrapped].color,
                    V3 { x: FX_ONE as int, y: 0, z: 0 },
                )
            }),
            ({
                let w = old(self)@.width;
                let h = old(self)@.height;
                let wrapped = old(self)@.sample_count % (w * h);
                let px = wrapped % w;
                let py = wrapped / w;
                exists|ju: int, jv: int, au: int, av: int, e: V3|
                    {
                        &&& 0 <= ju < FX_ONE
                        &&& 0 <= jv < FX_ONE
                        &&& 0 <= au < FX_ONE
                        &&& 0 <= av < FX_ONE
                        &&& #[trigger] spec_stratified_sample(
                            scene@,
                            scene@.camera.position,
                            crate::camera::spec_camera_ray(
                                scene@.camera,
                                px,
                                py,
                                w,
                                h,
                                ju,
                                jv,
                                au,
                                av,
                            ),
                            1,
                            old(self)@.bounces,
                            e,
                        )
                        &&& final(self)@.sensor.pixels[wrapped].color == v3_add(
                            old(self)@.sensor.pixels[wrapped].color,
                            e,
                        )
                    }
            }),
    {
        proof {
            assert(self@.width * self@.height > 0) by (nonlinear_arith)
                requires
                    self@.width > 0,
                    self@.height > 0,
            ;
        }
        let pixel = self.dimensions.pixel_for_index(self.sample_count);
        let ray = scene.camera().ray(
            pixel.x,
            pixel.y,
            self.dimensions.width,
            self.dimensions.height,
            rng,
        );
        let sampler = StratisfiedImageSampler::new(scene, ray, 1, self.bounces as usize);
        let sample = sampler.next_sample(rng);
        proof {
            let gw = old(self)@.width;
            let gh = old(self)@.height;
            let wrapped = old(self)@.sample_count % (gw * gh);
            let px = wrapped % gw;
            let py = wrapped / gw;
            if old(self)@.bounces >= 1 && forall|ju: int, jv: int, au: int, av: int|
                0 <= ju < FX_ONE && 0 <= jv < FX_ONE && 0 <= au < FX_ONE && 0 <= av < FX_ONE
                    ==> spec_nearest_hit(
                    scene@,
                    scene@.camera.position,
                    #[trigger] crate::camera::spec_camera_ray(
                        scene@.camera,
                        px,
                        py,
                        gw,
                        gh,
                        ju,
                        jv,
                        au,
                        av,
                    ),
                ) is None {
                assert(pixel.x as int == px && pixel.y as int == py);
                let (ju, jv, au, av) = choose|ju: int, jv: int, au: int, av: int|
                    0 <= ju < FX_ONE && 0 <= jv < FX_ONE && 0 <= au < FX_ONE && 0 <= av
                        < FX_ONE && ray.direction@ == crate::camera::spec_camera_ray(
                        scene@.camera,
                        pixel.x as int,
                        pixel.y as int,
                        gw,
                        gh,
                        ju,
                        jv,
                        au,
                        av,
                    );
                assert(spec_nearest_hit(
                    scene@,
                    scene@.camera.position,
                    crate::camera::spec_camera_ray(scene@.camera, px, py, gw, gh, ju, jv, au, av),
                ) is None);
                assert(spec_nearest_hit(scene@, ray.origin@, ray.direction@) is None);
                assert(sample@ == (V3 { x: FX_ONE as int, y: 0, z: 0 }));
            }
            assert(pixel.x as int == px && pixel.y as int == py);
            let (cju, cjv, cau, cav) = choose|ju: int, jv: int, au: int, av: int|
                0 <= ju < FX_ONE && 0 <= jv < FX_ONE && 0 <= au < FX_ONE && 0 <= av < FX_ONE
                    && ray.direction@ == crate::camera::spec_camera_ray(
                    scene@.camera,
                    pixel.x as int,
                    pixel.y as int,
                    gw,
                    gh,
                    ju,
                    jv,
                    au,
                    av,
                );
            assert(spec_stratified_sample(
                scene@,
                scene@.camera.position,
                crate::camera::spec_camera_ray(
                    scene@.camera,
                    px,
                    py,
                    gw,
                    gh,
                    cju,
                    cjv,
                    cau,
                    cav,
                ),
                1,
                old(self)@.bounces,
                sample@,
            ));
            let w = self.dimensions.width as int;
            let h = self.dimensions.height as int;
            let wr = (self.sample_count as int) % (w * h);
            assert(w * (wr / w) + wr % w == wr) by (nonlinear_arith)
                requires
                    w > 0,
            ;
            assert((wr % w) + (wr / w) * w == wr) by (nonlinear_arith)
                requires
                    w > 0,
            ;
            assert(0 <= wr < w * h);
        }
        let index = self.dimensions.index_for_pixel(pixel);
        self.sensor.add_sample(index, sample);
        let color = self.sensor.color_at(index);
        screen.write(index, color.x, color.y, color.z);
        self.sample_count = if self.sample_count == usize::MAX {
            0
        } else {
            self.sample_count + 1
        };
        proof {
            let w = old(self)@.width;
            let h = old(self)@.height;
            let ix = old(self)@.sample_count % (w * h);
            assert(index as int == ix);
            assert(self@.sensor.pixels[ix].color == v3_add(
                old(self)@.sensor.pixels[ix].color,
                sample@,
            ));
            assert(spec_scene_valid(scene@) ==> v3_non_negative(sample@));
            let before = old(self)@.sensor.pixels[ix];
            let after = self@.sensor.pixels[ix];
            assert(after.color == v3_add(before.color, sample@));
        }
    }
}


/// A flat pixel-buffer sink: four bytes per pixel (red, green, blue and
/// a full alpha), row-major from the top — the offline output mode.
pub struct PixelBufferScreen {
    pub data: Vec<u8>,
}

impl PixelBufferScreen {
    /// A cleared buffer for `pixel_count` pixels.
    pub fn new(pixel_count: usize) -> (r: PixelBufferScreen)
        requires
            pixel_count * 4 <= usize::MAX,
        ensures
            r.data@.len() == pixel_count * 4,
            forall|j: int| 0 <= j < r.data@.len() ==> #[trigger] r.data@[j] == 0,
    {
        let n = pixel_count * 4;
        let mut data: Vec<u8> = Vec::new();
        let mut i: usize = 0;
        while i < n
            invariant
                i <= n,
                data@.len() == i,
                forall|j: int| 0 <= j < i ==> #[trigger] data@[j] == 0,
            decreases n - i,
        {
            data.push(0);
            i = i + 1;
        }
        PixelBufferScreen { data }
    }

    /// Store one pixel's bytes at their four slots; out-of-range indices
    /// leave the buffer unchanged.
    pub fn write_pixel(&mut self, i: usize, r: u8, g: u8, b: u8)
        ensures
            final(self).data@.len() == old(self).data@.len(),
            i <= usize::MAX / 4 && 4 * i + 3 < old(self).data@.len() ==> {
                &&& final(self).data@[4 * i] == r
                &&& final(self).data@[4 * i + 1] == g
                &&& final(self).data@[4 * i + 2] == b
                &&& final(self).data@[4 * i + 3] == 255
                &&& forall|j: int|
                    0 <= j < old(self).data@.len() && !(4 * i <= j <= 4 * i + 3)
                        ==> final(self).data@[j] == #[trigger] old(self).data@[j]
            },
            !(i <= usize::MAX / 4 && 4 * i + 3 < old(self).data@.len()) ==> final(self).data@
                == old(self).data@,
    {
        if i > usize::MAX / 4 {
            return;
        }
        let base = 4 * i;
        if base + 3 >= self.data.len() {
            return;
        }
        self.data[base] = r;
        self.data[base + 1] = g;
        self.data[base + 2] = b;
        self.data[base + 3] = 255;
    }
}

impl Screen for PixelBufferScreen {
    fn write(&mut self, i: usize, r: u8, g: u8, b: u8) {
        self.write_pixel(i, r, g, b);
    }
}

} // verus!
