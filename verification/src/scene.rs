//! The scene: an immutable set of sphere primitives, the emitter subset
//! used for next-event light sampling, and nearest-intersection queries.

use vstd::prelude::*;
use crate::camera::{Camera, CameraV};
use crate::fx::{Fx, FX_ONE};
use crate::material::{Material, MaterialV};
use crate::ray::Ray;
use crate::sphere::{Sphere, SphereV, spec_intersection_distance};
use crate::vec3::{Point3, V3, Vec3, v3_add, v3_norm, v3_normalize, v3_scale, v3_sub};

verus! {

/// One bounce's hit: where the ray met a surface, the outward normal,
/// the surface material, the hit object's index and the hit distance.
pub struct Intersection {
    pub hit: Point3,
    pub normal: Vec3,
    pub material: Material,
    pub object_index: usize,
    pub distance: Fx,
}

/// The model of a scene: the camera, the primitives in insertion order,
/// and the indices of the emitter subset.
pub ghost struct SceneV {
    pub camera: CameraV,
    pub objects: Seq<SphereV>,
    pub lights: Seq<int>,
}

/// A scene of spheres with its camera and derived light set.
pub struct Scene {
    pub camera: Camera,
    objects: Vec<Sphere>,
    lights: Vec<usize>,
}

impl View for Scene {
    type V = SceneV;

    closed spec fn view(&self) -> SceneV {
        SceneV {
            camera: self.camera@,
            objects: self.objects@.map_values(|s: Sphere| s@),
            lights: self.lights@.map_values(|i: usize| i as int),
        }
    }
}

/// Whether a material emits light: its emission has a positive length.
pub open spec fn spec_can_emit(m: MaterialV) -> bool {
    v3_norm(m.light) > 0
}

/// Every recorded light index points at a primitive.
pub open spec fn spec_scene_wf(s: SceneV) -> bool {
    forall|k: int| 0 <= k < s.lights.len() ==> 0 <= #[trigger] s.lights[k] < s.objects.len()
}

/// The hit distance of the ray against primitive `i`.
pub open spec fn spec_hit(s: SceneV, origin: V3, direction: V3, i: int) -> Option<int> {
    spec_intersection_distance(s.objects[i], origin, direction)
}

/// The nearest hit among the first `n` primitives: index and distance,
/// scanned in order, a later primitive winning only by a strictly
/// smaller distance.
pub open spec fn spec_nearest_hit_upto(s: SceneV, origin: V3, direction: V3, n: int) -> Option<
    (int, int),
>
    decreases n,
{
    if n <= 0 {
        None
    } else {
        let prev = spec_nearest_hit_upto(s, origin, direction, n - 1);
        match spec_hit(s, origin, direction, n - 1) {
            Option::None => prev,
            Option::Some(t) => match prev {
                Option::None => Some((n - 1, t)),
                Option::Some(p) => if t < p.1 {
                    Some((n - 1, t))
                } else {
                    prev
                },
            },
        }
    }
}

/// The nearest hit over the whole scene.
pub open spec fn spec_nearest_hit(s: SceneV, origin: V3, direction: V3) -> Option<(int, int)> {
    spec_nearest_hit_upto(s, origin, direction, s.objects.len() as int)
}

impl Scene {
    /// A scene over the given primitives; the light set is derived as
    /// exactly the primitives whose material can emit.
    pub fn new(objects: Vec<Sphere>, camera: Camera) -> (s: Scene)
        ensures
            s@.camera == camera@,
            s@.objects == objects@.map_values(|o: Sphere| o@),
            spec_scene_wf(s@),
            forall|k: int|
                0 <= k < s@.lights.len() ==> spec_can_emit(
                    s@.objects[#[trigger] s@.lights[k]].material,
                ),
            forall|i: int|
                0 <= i < s@.objects.len() && spec_can_emit(#[trigger] s@.objects[i].material)
                    ==> exists|k: int| 0 <= k < s@.lights.len() && s@.lights[k] == i,
            forall|k1: int, k2: int|
                0 <= k1 < k2 < s@.lights.len() ==> #[trigger] s@.lights[k1]
                    < #[trigger] s@.lights[k2],
    {
        let mut lights: Vec<usize> = Vec::new();
        let mut i: usize = 0;
        while i < objects.len()
            invariant
                i <= objects.len(),
                forall|k: int|
                    0 <= k < lights@.len() ==> 0 <= #[trigger] lights@[k] < i,
                forall|k1: int, k2: int|
                    0 <= k1 < k2 < lights@.len() ==> #[trigger] lights@[k1]
                        < #[trigger] lights@[k2],
                forall|k: int|
                    0 <= k < lights@.len() ==> spec_can_emit(
                        objects@[#[trigger] lights@[k] as int]@.material,
                    ),
                forall|j: int|
                    0 <= j < i && spec_can_emit(#[trigger] objects@[j]@.material)
                        ==> exists|k: int| 0 <= k < lights@.len() && lights@[k] as int == j,
            decreases objects.len() - i,
        {
            let ghost prev = lights@;
            if objects[i].material().can_emit() {
                lights.push(i);
                assert(lights@[prev.len() as int] as int == i as int);
            }
            assert(forall|j: int|
                0 <= j < i && spec_can_emit(#[trigger] objects@[j]@.material) ==> exists|k: int|
                    0 <= k < lights@.len() && lights@[k] as int == j) by {
                assert(forall|k: int| 0 <= k < prev.len() ==> lights@[k] == #[trigger] prev[k]);
            }
            i = i + 1;
        }
        let ghost gl = lights@;
        let ghost go = objects@;
        let s = Scene { objects, camera, lights };
        proof {
            assert(s@.lights == gl.map_values(|x: usize| x as int));
            assert(s@.objects == go.map_values(|o: Sphere| o@));
            assert forall|i0: int|
                0 <= i0 < s@.objects.len() && spec_can_emit(#[trigger] s@.objects[i0].material)
                    implies exists|k: int| 0 <= k < s@.lights.len() && s@.lights[k] == i0 by {
                assert(s@.objects[i0] == go[i0]@);
                let k = choose|k: int| 0 <= k < gl.len() && gl[k] as int == i0;
                assert(0 <= k < s@.lights.len() && s@.lights[k] == i0);
            }
        }
        s
    }

    /// Append a primitive. The emitter subset is derived from the
    /// material, as at construction: the new index joins it exactly when
    /// the material can emit. The caller's flag is advisory only and
    /// does not decide membership.
    pub fn add_object(&mut self, object: Sphere, is_light: bool)
        requires
            spec_scene_wf(old(self)@),
        ensures
            final(self)@.camera == old(self)@.camera,
            final(self)@.objects == old(self)@.objects.push(object@),
            final(self)@.lights == if spec_can_emit(object@.material) {
                old(self)@.lights.push(old(self)@.objects.len() as int)
            } else {
                old(self)@.lights
            },
            spec_scene_wf(final(self)@),
    {
        let _ = is_light;
        if object.material().can_emit() {
            self.lights.push(self.objects.len());
        }
        self.objects.push(object);
        proof {
            assert(final(self)@.objects =~= old(self)@.objects.push(object@));
            if spec_can_emit(object@.material) {
                assert(final(self)@.lights =~= old(self)@.lights.push(
                    old(self)@.objects.len() as int,
                ));
            } else {
                assert(final(self)@.lights =~= old(self)@.lights);
            }
        }
    }

    /// The nearest intersection of the ray with any primitive beyond the
    /// bias distance; `None` means the ray escaped to the background.
    /// Among equally near hits the first-scanned primitive wins.
    #[verifier::rlimit(100)]
    pub fn intersect(&self, ray: &Ray) -> (r: Option<Intersection>)
        ensures
            r is None <==> spec_nearest_hit(self@, ray.origin@, ray.direction@) is None,
            r is Some ==> spec_nearest_hit(self@, ray.origin@, ray.direction@) == Some(
                ((r->0).object_index as int, (r->0).distance as int),
            ),
            r is None ==> forall|i: int|
                0 <= i < self@.objects.len() ==> spec_hit(
                    self@,
                    ray.origin@,
                    ray.direction@,
                    i,
                ) is None,
            r is Some ==> ({
                let hit = r->0;
                let ix = hit.object_index as int;
                &&& 0 <= ix < self@.objects.len()
                &&& spec_hit(self@, ray.origin@, ray.direction@, ix) == Some(
                    hit.distance as int,
                )
                &&& forall|j: int|
                    0 <= j < self@.objects.len() && #[trigger] spec_hit(
                        self@,
                        ray.origin@,
                        ray.direction@,
                        j,
                    ) is Some ==> spec_hit(self@, ray.origin@, ray.direction@, j)->0
                        >= hit.distance as int
                &&& forall|j: int|
                    0 <= j < ix && #[trigger] spec_hit(
                        self@,
                        ray.origin@,
                        ray.direction@,
                        j,
                    ) is Some ==> spec_hit(self@, ray.origin@, ray.direction@, j)->0
                        > hit.distance as int
                &&& hit.hit@ == v3_add(ray.origin@, v3_scale(ray.direction@, hit.distance as int))
                &&& hit.normal@ == v3_normalize(v3_sub(hit.hit@, self@.objects[ix].center))
                &&& hit.material@ == self@.objects[ix].material
            }),
    {
        let ghost o = ray.origin@;
        let ghost d = ray.direction@;
        let mut best: Option<(usize, Fx)> = None;
        let mut i: usize = 0;
        while i < self.objects.len()
            invariant
                o == ray.origin@,
                d == ray.direction@,
                i <= self.objects.len(),
                best is None ==> spec_nearest_hit_upto(self@, o, d, i as int) is None,
                best is Some ==> spec_nearest_hit_upto(self@, o, d, i as int) == Some(
                    ((best->0).0 as int, (best->0).1 as int),
                ),
                best is None ==> forall|j: int|
                    0 <= j < i ==> spec_hit(self@, o, d, j) is None,
                best is Some ==> ({
                    let ix = (best->0).0 as int;
                    let dist = (best->0).1 as int;
                    &&& 0 <= ix < i
                    &&& spec_hit(self@, o, d, ix) == Some(dist)
                    &&& forall|j: int|
                        0 <= j < i && #[trigger] spec_hit(self@, o, d, j) is Some ==> spec_hit(
                            self@,
                            o,
                            d,
                            j,
                        )->0 >= dist
                    &&& forall|j: int|
                        0 <= j < ix && #[trigger] spec_hit(self@, o, d, j) is Some ==> spec_hit(
                            self@,
                            o,
                            d,
                            j,
                        )->0 > dist
                }),
            decreases self.objects.len() - i,
        {
            proof {
                assert(self@.objects[i as int] == self.objects@[i as int]@);
            }
            let hit_i = self.objects[i].intersection_distance(ray);
            proof {
                assert(spec_hit(self@, o, d, i as int) == spec_intersection_distance(
                    self.objects@[i as int]@,
                    o,
                    d,
                ));
                if hit_i is Some {
                    assert(spec_hit(self@, o, d, i as int) is Some);
                    assert(spec_hit(self@, o, d, i as int)->0 == hit_i->0 as int);
                    assert(spec_hit(self@, o, d, i as int) == Some(hit_i->0 as int));
                } else {
                    assert(spec_hit(self@, o, d, i as int) is None);
                }
            }
            match hit_i {
                Some(dist) => {
                    match best {
                        None => {
                            best = Some((i, dist));
                        },
                        Some((_, best_dist)) => {
                            if dist < best_dist {
                                best = Some((i, dist));
                            }
                        },
                    }
                },
                None => {},
            }
            i = i + 1;
        }
        match best {
            None => None,
            Some((ix, dist)) => {
                let object = &self.objects[ix];
                let point = ray.origin.add_vec(&ray.direction.scale(dist));
                let normal = point.sub(&object.center()).normalize();
                Some(
                    Intersection {
                        hit: point,
                        normal,
                        material: *object.material(),
                        object_index: ix,
                        distance: dist,
                    },
                )
            },
        }
    }

    /// The background radiance of a ray that hit nothing.
    pub fn bg(&self, ray: &Ray) -> (r: Vec3)
        ensures
            r@ == (V3 { x: FX_ONE as int, y: 0, z: 0 }),
    {
        let _ = ray;
        Vec3::new(FX_ONE, 0, 0)
    }

    /// The emitter primitives, for next-event light sampling.
    pub fn lights(&self) -> (r: Vec<Sphere>)
        requires
            spec_scene_wf(self@),
        ensures
            r@.len() == self@.lights.len(),
            forall|k: int|
                0 <= k < r@.len() ==> #[trigger] r@[k]@ == self@.objects[self@.lights[k]],
    {
        let mut out: Vec<Sphere> = Vec::new();
        let mut k: usize = 0;
        while k < self.lights.len()
            invariant
                spec_scene_wf(self@),
                k <= self.lights.len(),
                out@.len() == k,
                forall|j: int|
                    0 <= j < k ==> #[trigger] out@[j]@ == self@.objects[self@.lights[j]],
            decreases self.lights.len() - k,
        {
            let ix = self.lights[k];
            proof {
                assert(self@.lights[k as int] == ix as int);
                assert(0 <= self@.lights[k as int] < self@.objects.len());
            }
            out.push(self.objects[ix]);
            k = k + 1;
        }
        out
    }

    /// The scene's camera.
    pub fn camera(&self) -> (r: &Camera)
        ensures
            r@ == self@.camera,
    {
        &self.camera
    }

    /// How many primitives the scene holds.
    pub fn object_count(&self) -> (r: usize)
        ensures
            r == self@.objects.len(),
    {
        self.objects.len()
    }
}

} // verus!
