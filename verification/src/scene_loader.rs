//! The built-in scenes, selectable by name.

use vstd::prelude::*;
use vstd::string::StringSliceAdditionalSpecFns;
use crate::camera::Camera;
use crate::fx::{FX_ONE, fx_from_int, fx_from_ratio, fx_from_int_spec};
use crate::material::Material;
use crate::scene::{Scene, spec_can_emit, spec_scene_wf};
use crate::sphere::Sphere;
use crate::tracer::spec_scene_valid;
use crate::vec3::{Point3, V3, Vec3, lemma_norm_positive_axis};

verus! {

/// Whether a loaded scene has the walled-box shape: eight primitives,
/// valid materials throughout, and as its one light the ceiling lamp at
/// `(0, 13, -8)` with radius 10.5 and emission 355 per channel.
pub open spec fn spec_box_scene(s: crate::scene::SceneV) -> bool {
    &&& s.objects.len() == 8
    &&& spec_scene_wf(s)
    &&& spec_scene_valid(s)
    &&& s.lights =~= seq![5int]
    &&& s.objects[5].center == (V3 {
        x: 0,
        y: fx_from_int_spec(13),
        z: fx_from_int_spec(-8),
    })
    &&& s.objects[5].radius == crate::fx::fx_from_ratio_spec(105, 10)
    &&& s.objects[5].material.light == (V3 {
        x: fx_from_int_spec(355),
        y: fx_from_int_spec(355),
        z: fx_from_int_spec(355),
    })
    &&& spec_can_emit(s.objects[5].material)
    &&& forall|i: int|
        0 <= i < 8 && i != 5 ==> !spec_can_emit(#[trigger] s.objects[i].material)
    &&& s.camera.position == (V3 {
        x: 0,
        y: 0,
        z: fx_from_int_spec(7),
    })
}

/// Whether a loaded scene has the open-spheres shape: six primitives
/// with as the one light the lamp at `(-8, 3, -1)` with radius 2 and
/// emission 700 per channel. Every material but the gold display
/// sphere's is physically valid; gold's Fresnel red channel exceeds one,
/// so the scene as a whole sits outside the valid-material model.
pub open spec fn spec_spheres_scene(s: crate::scene::SceneV) -> bool {
    &&& s.objects.len() == 6
    &&& spec_scene_wf(s)
    &&& s.lights =~= seq![5int]
    &&& s.objects[5].center == (V3 {
        x: fx_from_int_spec(-8),
        y: fx_from_int_spec(3),
        z: fx_from_int_spec(-1),
    })
    &&& s.objects[5].radius == fx_from_int_spec(2)
    &&& s.objects[5].material.light == (V3 {
        x: fx_from_int_spec(700),
        y: fx_from_int_spec(700),
        z: fx_from_int_spec(700),
    })
    &&& spec_can_emit(s.objects[5].material)
    &&& forall|i: int|
        0 <= i < 6 && i != 5 ==> !spec_can_emit(#[trigger] s.objects[i].material)
    &&& forall|i: int|
        1 <= i < 6 ==> crate::material::spec_valid_material(#[trigger] s.objects[i].material)
    &&& s.camera.position == (V3 {
        x: 0,
        y: fx_from_int_spec(6),
        z: fx_from_int_spec(8),
    })
}

/// Whether two byte strings hold the same bytes.
fn bytes_eq(a: &[u8], b: &[u8]) -> (r: bool)
    ensures
        r == (a@ == b@),
{
    if a.len() != b.len() {
        return false;
    }
    let mut i: usize = 0;
    while i < a.len()
        invariant
            a@.len() == b@.len(),
            i <= a@.len(),
            forall|j: int| 0 <= j < i ==> a@[j] == b@[j],
        decreases a@.len() - i,
    {
        if a[i] != b[i] {
            return false;
        }
        i = i + 1;
    }
    proof {
        assert(a@ =~= b@);
    }
    true
}

/// The scene of the given name, or `None` for an unknown name.
pub fn load_scene(name: &str) -> (r: Option<Scene>)
    ensures
        r is Some <==> (name.spec_bytes() == "box".spec_bytes() || name.spec_bytes()
            == "spheres".spec_bytes()),
        r is Some ==> if name.spec_bytes() == "box".spec_bytes() {
            spec_box_scene(r->0@)
        } else {
            spec_spheres_scene(r->0@)
        },
{
    if bytes_eq(name.as_bytes(), "box".as_bytes()) {
        Some(load_box_scene())
    } else if bytes_eq(name.as_bytes(), "spheres".as_bytes()) {
        Some(load_spheres_scene())
    } else {
        None
    }
}

/// The open scene: four display spheres on a vast floor under one lamp.
#[verifier::rlimit(100)]
fn load_spheres_scene() -> (s: Scene)
    ensures
        spec_spheres_scene(s@),
{
    let bright_light = Material::new(
        Vec3::zeros(),
        FX_ONE,
        FX_ONE,
        Vec3::new(fx_from_int(700), fx_from_int(700), fx_from_int(700)),
        Vec3::zeros(),
        0,
        0,
    );
    let white_lambert = Material::new(
        Vec3::ones(),
        FX_ONE,
        0,
        Vec3::zeros(),
        Vec3::new(fx_from_ratio(3, 100), fx_from_ratio(3, 100), fx_from_ratio(3, 100)),
        0,
        0,
    );
    let blue_plastic = Material::new(
        Vec3::new(fx_from_ratio(1, 10), fx_from_ratio(1, 10), FX_ONE),
        FX_ONE,
        0,
        Vec3::zeros(),
        Vec3::new(fx_from_ratio(4, 100), fx_from_ratio(4, 100), fx_from_ratio(4, 100)),
        0,
        fx_from_ratio(2, 10),
    );
    let silver = Material::new(
        Vec3::new(fx_from_ratio(972, 1000), fx_from_ratio(960, 1000), fx_from_ratio(915, 1000)),
        FX_ONE,
        0,
        Vec3::zeros(),
        Vec3::new(fx_from_ratio(972, 1000), fx_from_ratio(960, 1000), fx_from_ratio(915, 1000)),
        fx_from_ratio(9, 10),
        FX_ONE,
    );
    let gold = Material::new(
        Vec3::zeros(),
        FX_ONE,
        0,
        Vec3::zeros(),
        Vec3::new(fx_from_ratio(1022, 1000), fx_from_ratio(782, 1000), fx_from_ratio(344, 1000)),
        FX_ONE,
        fx_from_ratio(7, 10),
    );
    let green_glass = Material::new(
        Vec3::new(0, FX_ONE, 0),
        fx_from_ratio(152, 100),
        fx_from_ratio(95, 100),
        Vec3::zeros(),
        Vec3::new(fx_from_ratio(5, 100), fx_from_ratio(5, 100), fx_from_ratio(5, 100)),
        0,
        FX_ONE,
    );
    let objects = vec![
        Sphere::new(
            0,
            Point3::new(fx_from_ratio(-33, 10), FX_ONE, fx_from_ratio(-43, 10)),
            FX_ONE,
            gold,
        ),
        Sphere::new(
            1,
            Point3::new(fx_from_ratio(-11, 10), FX_ONE, fx_from_int(-5)),
            FX_ONE,
            blue_plastic,
        ),
        Sphere::new(2, Point3::new(FX_ONE, FX_ONE, fx_from_int(-5)), FX_ONE, silver),
        Sphere::new(
            3,
            Point3::new(fx_from_ratio(32, 10), FX_ONE, fx_from_ratio(-46, 10)),
            FX_ONE,
            green_glass,
        ),
        Sphere::new(
            4,
            Point3::new(fx_from_ratio(5, 10), fx_from_int(-1000), fx_from_int(-8)),
            fx_from_int(1000),
            white_lambert,
        ),
        Sphere::new(
            5,
            Point3::new(fx_from_int(-8), fx_from_int(3), fx_from_int(-1)),
            fx_from_int(2),
            bright_light,
        ),
    ];
    let camera = Camera::new(
        Point3::new(0, fx_from_int(6), fx_from_int(8)),
        fx_from_ratio(24, 1000),
        fx_from_ratio(55, 1000),
        fx_from_int(14),
        fx_from_ratio(14, 10),
        0,
        fx_from_int(25),
    );
    let ghost views = objects@;
    let s = Scene::new(objects, camera);
    proof {
        assert(s@.objects.len() == 6);
        assert(s@.objects[0] == views[0]@);
        assert(s@.objects[1] == views[1]@);
        assert(s@.objects[2] == views[2]@);
        assert(s@.objects[3] == views[3]@);
        assert(s@.objects[4] == views[4]@);
        assert(s@.objects[5] == views[5]@);
        assert(spec_can_emit(s@.objects[5].material)) by {
            lemma_norm_positive_axis(views[5]@.material.light);
        }
        assert(!spec_can_emit(s@.objects[0].material));
        assert(!spec_can_emit(s@.objects[1].material));
        assert(!spec_can_emit(s@.objects[2].material));
        assert(!spec_can_emit(s@.objects[3].material));
        assert(!spec_can_emit(s@.objects[4].material));
        assert forall|i: int| 0 <= i < 6 && i != 5 implies !spec_can_emit(
            #[trigger] s@.objects[i].material,
        ) by {
            assert(i == 0 || i == 1 || i == 2 || i == 3 || i == 4);
        }
        lemma_single_light(s@, 6, 5);
        crate::fx::lemma_from_ratio_bounds(1, 10);
        crate::fx::lemma_from_ratio_bounds(2, 10);
        crate::fx::lemma_from_ratio_bounds(9, 10);
        crate::fx::lemma_from_ratio_bounds(3, 100);
        crate::fx::lemma_from_ratio_bounds(4, 100);
        crate::fx::lemma_from_ratio_bounds(5, 100);
        crate::fx::lemma_from_ratio_bounds(95, 100);
        crate::fx::lemma_from_ratio_bounds(972, 1000);
        crate::fx::lemma_from_ratio_bounds(960, 1000);
        crate::fx::lemma_from_ratio_bounds(915, 1000);
        crate::fx::lemma_from_ratio_positive(152, 100);
        crate::fx::lemma_from_int_nonneg(700);
        assert(crate::material::spec_valid_material(s@.objects[1].material));
        assert(crate::material::spec_valid_material(s@.objects[2].material));
        assert(crate::material::spec_valid_material(s@.objects[3].material));
        assert(crate::material::spec_valid_material(s@.objects[4].material));
        assert(crate::material::spec_valid_material(s@.objects[5].material));
        assert forall|i: int| 1 <= i < 6 implies crate::material::spec_valid_material(
            #[trigger] s@.objects[i].material,
        ) by {
            assert(i == 1 || i == 2 || i == 3 || i == 4 || i == 5);
        }
    }
    s
}

/// The walled scene: a box of vast spheres holding three small spheres
/// under one lamp.
#[verifier::rlimit(100)]
fn load_box_scene() -> (s: Scene)
    ensures
        spec_box_scene(s@),
{
    let bright_light = Material::new(
        Vec3::zeros(),
        FX_ONE,
        FX_ONE,
        Vec3::new(fx_from_int(355), fx_from_int(355), fx_from_int(355)),
        Vec3::zeros(),
        0,
        0,
    );
    let white_lambert = Material::new(
        Vec3::ones(),
        FX_ONE,
        0,
        Vec3::zeros(),
        Vec3::new(fx_from_ratio(3, 100), fx_from_ratio(3, 100), fx_from_ratio(3, 100)),
        0,
        0,
    );
    let blue_plastic = Material::new(
        Vec3::new(fx_from_ratio(1, 10), fx_from_ratio(1, 10), FX_ONE),
        FX_ONE,
        0,
        Vec3::zeros(),
        Vec3::new(fx_from_ratio(4, 100), fx_from_ratio(4, 100), fx_from_ratio(4, 100)),
        0,
        fx_from_ratio(2, 10),
    );
    let red_plastic = Material::new(
        Vec3::new(FX_ONE, 0, 0),
        FX_ONE,
        0,
        Vec3::zeros(),
        Vec3::new(fx_from_ratio(4, 100), fx_from_ratio(4, 100), fx_from_ratio(4, 100)),
        0,
        fx_from_ratio(2, 10),
    );
    let silver = Material::new(
        Vec3::new(fx_from_ratio(972, 1000), fx_from_ratio(960, 1000), fx_from_ratio(915, 1000)),
        FX_ONE,
        0,
        Vec3::zeros(),
        Vec3::new(fx_from_ratio(972, 1000), fx_from_ratio(960, 1000), fx_from_ratio(915, 1000)),
        fx_from_ratio(9, 10),
        FX_ONE,
    );
    let glass = Material::new(
        Vec3::zeros(),
        fx_from_ratio(16, 10),
        FX_ONE,
        Vec3::zeros(),
        Vec3::new(fx_from_ratio(4, 100), fx_from_ratio(4, 100), fx_from_ratio(4, 100)),
        0,
        0,
    );
    let objects = vec![
        Sphere::new(
            0,
            Point3::new(fx_from_int(-1005), 0, fx_from_int(-8)),
            fx_from_int(1000),
            blue_plastic,
        ),
        Sphere::new(
            1,
            Point3::new(fx_from_int(1005), 0, fx_from_int(-8)),
            fx_from_int(1000),
            red_plastic,
        ),
        Sphere::new(
            2,
            Point3::new(0, fx_from_int(-1003), fx_from_int(-8)),
            fx_from_int(1000),
            white_lambert,
        ),
        Sphere::new(
            3,
            Point3::new(0, fx_from_int(1003), fx_from_int(-8)),
            fx_from_int(1000),
            white_lambert,
        ),
        Sphere::new(
            4,
            Point3::new(0, 0, fx_from_int(-1010)),
            fx_from_int(1000),
            white_lambert,
        ),
        Sphere::new(
            5,
            Point3::new(0, fx_from_int(13), fx_from_int(-8)),
            fx_from_ratio(105, 10),
            bright_light,
        ),
        Sphere::new(
            6,
            Point3::new(FX_ONE, fx_from_int(-2), fx_from_int(-7)),
            FX_ONE,
            silver,
        ),
        Sphere::new(
            7,
            Point3::new(fx_from_ratio(-75, 100), fx_from_int(-2), fx_from_int(-5)),
            FX_ONE,
            glass,
        ),
    ];
    let camera = Camera::new(
        Point3::new(0, 0, fx_from_int(7)),
        fx_from_ratio(24, 1000),
        fx_from_ratio(40, 1000),
        fx_from_int(15),
        fx_from_ratio(14, 10),
        0,
        0,
    );
    let ghost views = objects@;
    let s = Scene::new(objects, camera);
    proof {
        assert(s@.objects.len() == 8);
        assert(s@.objects[0] == views[0]@);
        assert(s@.objects[1] == views[1]@);
        assert(s@.objects[2] == views[2]@);
        assert(s@.objects[3] == views[3]@);
        assert(s@.objects[4] == views[4]@);
        assert(s@.objects[5] == views[5]@);
        assert(s@.objects[6] == views[6]@);
        assert(s@.objects[7] == views[7]@);
        assert(spec_can_emit(s@.objects[5].material)) by {
            lemma_norm_positive_axis(views[5]@.material.light);
        }
        assert(!spec_can_emit(s@.objects[0].material));
        assert(!spec_can_emit(s@.objects[1].material));
        assert(!spec_can_emit(s@.objects[2].material));
        assert(!spec_can_emit(s@.objects[3].material));
        assert(!spec_can_emit(s@.objects[4].material));
        assert(!spec_can_emit(s@.objects[6].material));
        assert(!spec_can_emit(s@.objects[7].material));
        assert forall|i: int| 0 <= i < 8 && i != 5 implies !spec_can_emit(
            #[trigger] s@.objects[i].material,
        ) by {
            assert(i == 0 || i == 1 || i == 2 || i == 3 || i == 4 || i == 6 || i == 7);
        }
        lemma_single_light(s@, 8, 5);
        crate::fx::lemma_from_int_nonneg(355);
        crate::fx::lemma_from_ratio_bounds(1, 10);
        crate::fx::lemma_from_ratio_bounds(2, 10);
        crate::fx::lemma_from_ratio_bounds(9, 10);
        crate::fx::lemma_from_ratio_bounds(3, 100);
        crate::fx::lemma_from_ratio_bounds(4, 100);
        crate::fx::lemma_from_ratio_bounds(972, 1000);
        crate::fx::lemma_from_ratio_bounds(960, 1000);
        crate::fx::lemma_from_ratio_bounds(915, 1000);
        crate::fx::lemma_from_ratio_positive(16, 10);
        assert(crate::material::spec_valid_material(s@.objects[0].material));
        assert(crate::material::spec_valid_material(s@.objects[1].material));
        assert(crate::material::spec_valid_material(s@.objects[2].material));
        assert(crate::material::spec_valid_material(s@.objects[3].material));
        assert(crate::material::spec_valid_material(s@.objects[4].material));
        assert(crate::material::spec_valid_material(s@.objects[5].material));
        assert(crate::material::spec_valid_material(s@.objects[6].material));
        assert(crate::material::spec_valid_material(s@.objects[7].material));
        assert forall|i: int| 0 <= i < 8 implies crate::material::spec_valid_material(
            #[trigger] s@.objects[i].material,
        ) by {
            assert(i == 0 || i == 1 || i == 2 || i == 3 || i == 4 || i == 5 || i == 6 || i == 7);
        }
    }
    s
}

/// A scene whose only emitter is primitive `lit` has exactly that one
/// light index, given the guarantees of scene construction.
proof fn lemma_single_light(s: crate::scene::SceneV, n: int, lit: int)
    requires
        s.objects.len() == n,
        0 <= lit < n,
        spec_scene_wf(s),
        spec_can_emit(s.objects[lit].material),
        forall|i: int| 0 <= i < n && i != lit ==> !spec_can_emit(#[trigger] s.objects[i].material),
        forall|k: int|
            0 <= k < s.lights.len() ==> spec_can_emit(s.objects[#[trigger] s.lights[k]].material),
        exists|k: int| 0 <= k < s.lights.len() && s.lights[k] == lit,
        forall|k1: int, k2: int|
            0 <= k1 < k2 < s.lights.len() ==> #[trigger] s.lights[k1] < #[trigger] s.lights[k2],
    ensures
        s.lights =~= seq![lit],
{
    assert(forall|k: int| 0 <= k < s.lights.len() ==> #[trigger] s.lights[k] == lit);
    assert(s.lights.len() >= 1);
    if s.lights.len() >= 2 {
        assert(s.lights[0] < s.lights[1]);
    }
}

} // verus!
