//! Ports of the renderer's scenario tests: sphere intersection, the
//! Schlick reflectance, refraction edge cases, scene loading and the
//! exposure buffer.

use raybird::camera::Camera;
use raybird::fx::{Fx, FX_ONE};
use raybird::material::{Material, SurfaceInteraction, SurfacePoint};
use raybird::ray::Ray;
use raybird::scene::Scene;
use raybird::scene_loader::load_scene;
use raybird::sensor::{Pixel, Sensor, SensorDimensions};
use raybird::sphere::Sphere;
use raybird::vec3::{Point3, Vec3};

fn fx(v: f64) -> Fx {
    (v * FX_ONE as f64).round() as Fx
}

fn to_f(x: Fx) -> f64 {
    x as f64 / FX_ONE as f64
}

fn v3(x: f64, y: f64, z: f64) -> Vec3 {
    Vec3::new(fx(x), fx(y), fx(z))
}

fn p3(x: f64, y: f64, z: f64) -> Point3 {
    Point3::new(fx(x), fx(y), fx(z))
}

fn blue_plastic() -> Material {
    Material::new(
        v3(0.1, 0.1, 1.0),
        fx(1.0),
        0,
        v3(0.0, 0.0, 0.0),
        v3(0.04, 0.04, 0.04),
        0,
        fx(0.2),
    )
}

fn box_test_camera() -> Camera {
    Camera::new(p3(0.0, 0.0, 7.0), fx(0.024), fx(0.040), fx(15.0), fx(1.4), 0, 0)
}

#[test]
fn intersection_returns_correct_result() {
    let m = blue_plastic();
    let objects = vec![
        Sphere::new(0, p3(-1005.0, 0.0, -8.0), fx(1000.0), m),
        Sphere::new(1, p3(1005.0, 0.0, -8.0), fx(1000.0), m),
        Sphere::new(2, p3(0.0, -1003.0, -8.0), fx(1000.0), m),
        Sphere::new(3, p3(0.0, 1003.0, -8.0), fx(1000.0), m),
        Sphere::new(4, p3(0.0, 0.0, -1010.0), fx(1000.0), m),
        Sphere::new(5, p3(0.0, 13.0, -8.0), fx(10.5), m),
        Sphere::new(6, p3(1.0, -2.0, -7.0), fx(1.0), m),
        Sphere::new(7, p3(-0.75, -2.0, -5.0), fx(1.0), m),
    ];
    let scene = Scene::new(objects, box_test_camera());
    let ray = Ray {
        origin: p3(0.0, 0.0, 7.0),
        direction: v3(-0.13133105101029943, 0.23858981742286559, -0.96219907195063),
    };
    let intersection = scene.intersect(&ray).unwrap();
    let expected = (-0.0016543758341001802, -0.999994486641428, 0.002879188661149867);
    assert_eq!(intersection.object_index, 3);
    assert!((to_f(intersection.normal.x) - expected.0).abs() < 1e-4);
    assert!((to_f(intersection.normal.y) - expected.1).abs() < 1e-4);
    assert!((to_f(intersection.normal.z) - expected.2).abs() < 1e-4);
}

#[test]
fn intersection_misses_outside_every_sphere() {
    let m = blue_plastic();
    let objects = vec![Sphere::new(0, p3(0.0, 13.0, -8.0), fx(10.5), m)];
    let scene = Scene::new(objects, box_test_camera());
    let ray = Ray { origin: p3(0.0, 0.0, 7.0), direction: v3(0.0, 0.0, 1.0) };
    assert!(scene.intersect(&ray).is_none());
}

#[test]
fn intersection_ties_go_to_the_first_sphere() {
    let m = blue_plastic();
    let objects = vec![
        Sphere::new(0, p3(0.0, 0.0, -5.0), fx(1.0), m),
        Sphere::new(1, p3(0.0, 0.0, -5.0), fx(1.0), m),
    ];
    let scene = Scene::new(objects, box_test_camera());
    let ray = Ray { origin: p3(0.0, 0.0, 0.0), direction: v3(0.0, 0.0, -1.0) };
    let hit = scene.intersect(&ray).unwrap();
    assert_eq!(hit.object_index, 0);
    assert!((to_f(hit.distance) - 4.0).abs() < 1e-5);
}

#[test]
fn schilck_is_correct() {
    let incident = v3(0.9999877074290066, 0.002070457097031252, 0.004505352182583419);
    let normal = v3(-0.42430229364657923, 0.17526903761586785, -0.8883964925974548);
    let material = blue_plastic();
    let interaction = SurfaceInteraction {
        wo: incident.neg(),
        surface: SurfacePoint { n: normal, p: p3(0.0, 0.0, 0.0) },
    };
    let r = material.schilck(&interaction);
    let expected = 0.09881546766725074;
    assert!((to_f(r.x) - expected).abs() < 1e-7, "got {}", to_f(r.x));
    assert!((to_f(r.y) - expected).abs() < 1e-7);
    assert!((to_f(r.z) - expected).abs() < 1e-7);
}

#[test]
fn refraction_reports_total_internal_reflection() {
    let d = v3(0.8, -0.6, 0.0);
    let n = v3(0.0, 1.0, 0.0);
    assert!(d.refraction(&n, fx(1.6), fx(1.0)).is_none());
    let shallow = v3(0.1, -0.9949874371, 0.0);
    assert!(shallow.refraction(&n, fx(1.6), fx(1.0)).is_some());
}

#[test]
fn refraction_entry_bends_toward_the_normal() {
    let d = v3(0.707106781, -0.707106781, 0.0);
    let n = v3(0.0, 1.0, 0.0);
    let out = d.refraction(&n, fx(1.0), fx(1.5)).unwrap();
    let sin_in: f64 = 0.707106781;
    let sin_out = sin_in / 1.5;
    assert!((to_f(out.x) - sin_out).abs() < 1e-5);
    assert!(to_f(out.y) < 0.0);
}

#[test]
fn load_scene_knows_its_names() {
    assert!(load_scene("box").is_some());
    assert!(load_scene("spheres").is_some());
    assert!(load_scene("teapot").is_none());
    assert!(load_scene("").is_none());
    let s = load_scene("box").unwrap();
    assert_eq!(s.object_count(), 8);
    assert_eq!(s.lights().len(), 1);
    assert_eq!(s.lights()[0].radius(), fx(10.5));
}

#[test]
fn sensor_dimensions_roundtrip() {
    let dims = SensorDimensions { width: 640, height: 480 };
    for &i in [0usize, 1, 639, 640, 641, 307199].iter() {
        let p = dims.pixel_for_index(i);
        assert_eq!(dims.index_for_pixel(p), i % (640 * 480));
    }
    let p = dims.pixel_for_index(307200);
    assert_eq!(p, Pixel { x: 0, y: 0 });
}

#[test]
fn sensor_accumulates_and_reads_back() {
    let dims = SensorDimensions { width: 2, height: 2 };
    let mut sensor = Sensor::new(dims, fx(1.0 / 2.2));
    assert_eq!(sensor.len(), 4);
    let black = sensor.color_at(0);
    assert_eq!((black.x, black.y, black.z), (0, 0, 0));
    sensor.add_sample(0, v3(255.0, 0.0, 63.75));
    let c = sensor.color_at(0);
    assert_eq!(c.x, 255);
    assert_eq!(c.y, 0);
    let expected = (63.75f64 / 255.0).powf(1.0 / 2.2) * 255.0;
    assert!((c.z as f64 - expected).abs() < 2.0, "got {} want {}", c.z, expected);
    sensor.add_sample(0, v3(255.0, 0.0, 63.75));
    let c2 = sensor.color_at(0);
    assert_eq!((c2.x, c2.y, c2.z), (c.x, c.y, c.z));
}

#[test]
fn gamma_round_trip_recovers_the_radiance() {
    let dims = SensorDimensions { width: 1, height: 1 };
    let mut sensor = Sensor::new(dims, fx(0.5));
    let linear = (100.0, 37.5, 200.0);
    sensor.add_sample(0, v3(linear.0, linear.1, linear.2));
    let c = sensor.color_at(0);
    let decode = |b: u8| (b as f64 / 255.0).powf(2.0) * 255.0;
    assert!((decode(c.x) - linear.0).abs() <= 3.0, "x: {} vs {}", decode(c.x), linear.0);
    assert!((decode(c.y) - linear.1).abs() <= 3.0, "y: {} vs {}", decode(c.y), linear.1);
    assert!((decode(c.z) - linear.2).abs() <= 3.0, "z: {} vs {}", decode(c.z), linear.2);
}

#[test]
fn add_object_extends_the_light_set() {
    let m = blue_plastic();
    let lamp = Material::new(
        v3(0.0, 0.0, 0.0),
        fx(1.0),
        fx(1.0),
        v3(355.0, 355.0, 355.0),
        v3(0.0, 0.0, 0.0),
        0,
        0,
    );
    let objects = vec![Sphere::new(0, p3(0.0, 0.0, -5.0), fx(1.0), m)];
    let mut scene = Scene::new(objects, box_test_camera());
    assert_eq!(scene.lights().len(), 0);
    scene.add_object(Sphere::new(1, p3(0.0, 10.0, -5.0), fx(2.0), lamp), true);
    assert_eq!(scene.object_count(), 2);
    let lights = scene.lights();
    assert_eq!(lights.len(), 1);
    assert_eq!(lights[0].radius(), fx(2.0));
    // The flag does not decide membership: the subset is derived from
    // the material, so a non-emitter stays out however it is flagged,
    // and an emitter enters even unflagged.
    scene.add_object(Sphere::new(2, p3(3.0, 0.0, -5.0), fx(1.0), m), true);
    assert_eq!(scene.lights().len(), 1);
    scene.add_object(Sphere::new(3, p3(-3.0, 10.0, -5.0), fx(1.0), lamp), false);
    assert_eq!(scene.lights().len(), 2);
}
