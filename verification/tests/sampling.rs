//! Statistical and end-to-end checks: the filtered probability test's
//! fairness, hemisphere sampling, and a small deterministic render.

use raybird::fx::{Fx, FX_ONE};
use raybird::material::{
    CosWeightedDiffuse, FilteredProbabilityTest, LightWeightedDiffuse, Material,
};
use raybird::ray::Ray;
use raybird::rng::Rng;
use raybird::scene::Scene;
use raybird::sphere::Sphere;
use raybird::tracer::{PixelBufferScreen, Screen, SingleThreadedTracer, StratisfiedImageSampler};
use raybird::vec3::{Point3, Vec3};

fn fx(v: f64) -> Fx {
    (v * FX_ONE as f64).round() as Fx
}

fn to_f(x: Fx) -> f64 {
    x as f64 / FX_ONE as f64
}

fn v3(x: f64, y: f64, z: f64) -> Vec3 {
    Vec3::new(fx(x), fx(y), fx(z))
}

fn p3(x: f64, y: f64, z: f64) -> Point3 {
    Point3::new(fx(x), fx(y), fx(z))
}

#[test]
fn filtered_probability_test_is_fair() {
    let mut rng = Rng::from_seed(7);
    let (p1, p2, p3) = (fx(0.3), fx(0.5), fx(0.5));
    let n = 20000usize;
    let mut counts = [0usize; 4];
    let mut i = 0;
    while i < n {
        let mut test = FilteredProbabilityTest::new(&mut rng);
        if test.or(p1) {
            counts[0] += 1;
        } else if test.or(p2) {
            counts[1] += 1;
        } else if test.or(p3) {
            counts[2] += 1;
        } else {
            counts[3] += 1;
        }
        i += 1;
    }
    let expected = [0.3, 0.7 * 0.5, 0.7 * 0.5 * 0.5, 0.7 * 0.5 * 0.5];
    for k in 0..4 {
        let freq = counts[k] as f64 / n as f64;
        assert!(
            (freq - expected[k]).abs() < 0.02,
            "branch {}: {} vs {}",
            k,
            freq,
            expected[k]
        );
    }
}

#[test]
fn cosine_samples_stay_in_the_hemisphere() {
    let mut rng = Rng::from_seed(11);
    let normals = [v3(0.0, 1.0, 0.0), v3(0.0, -1.0, 0.0), v3(0.6, 0.8, 0.0)];
    for n in normals.iter() {
        let mut i = 0;
        while i < 500 {
            let u = rng.next_unit();
            let v = rng.next_unit();
            let sampler = CosWeightedDiffuse::new(*n, u, v);
            let d = sampler.gen();
            assert!(to_f(d.dot(n)) > 0.0, "direction {:?} against {:?}", d, n);
            i += 1;
        }
    }
}

#[test]
fn light_density_is_zero_below_the_horizon() {
    let lamp = Material::new(
        v3(0.0, 0.0, 0.0),
        FX_ONE,
        FX_ONE,
        v3(355.0, 355.0, 355.0),
        v3(0.0, 0.0, 0.0),
        0,
        0,
    );
    let light = Sphere::new(0, p3(0.0, 13.0, -8.0), fx(10.5), lamp);
    let sampler = LightWeightedDiffuse::new(p3(0.0, 0.0, 0.0), v3(0.0, 1.0, 0.0), light);
    assert_eq!(sampler.p(&v3(0.0, -1.0, 0.0)), 0);
    assert_eq!(sampler.p(&v3(1.0, 0.0, 0.0)), 0);
    let toward = v3(0.0, 0.52, -0.32);
    assert!(sampler.p(&toward.normalize()) > 0);
    // Above the horizon but far outside the light's solid-angle cone
    // (half-angle asin(10.5/15.26) ~ 0.76 rad, this direction ~1.49 rad
    // off the light axis): the density is zero.
    let off_axis = v3(0.995, 0.0995, 0.0);
    assert_eq!(sampler.p(&off_axis.normalize()), 0);
}

#[test]
fn cosine_hemisphere_samples_are_unit() {
    let mut rng = Rng::from_seed(19);
    let mut i = 0;
    while i < 200 {
        let u = rng.next_unit();
        let v = rng.next_unit();
        let d = Vec3::random_in_cos_hemisphere(u, v);
        let len = (to_f(d.x).powi(2) + to_f(d.y).powi(2) + to_f(d.z).powi(2)).sqrt();
        assert!((len - 1.0).abs() < 5e-4, "length {}", len);
        assert!(to_f(d.z) >= 0.0);
        i += 1;
    }
}

struct CollectingScreen {
    pixels: Vec<(u8, u8, u8)>,
}

impl Screen for CollectingScreen {
    fn write(&mut self, i: usize, r: u8, g: u8, b: u8) {
        self.pixels[i] = (r, g, b);
    }
}

fn two_sphere_scene() -> Scene {
    let lamp = Material::new(
        v3(0.0, 0.0, 0.0),
        FX_ONE,
        FX_ONE,
        v3(355.0, 355.0, 355.0),
        v3(0.0, 0.0, 0.0),
        0,
        0,
    );
    let white_lambert = Material::new(
        v3(1.0, 1.0, 1.0),
        FX_ONE,
        0,
        v3(0.0, 0.0, 0.0),
        v3(0.03, 0.03, 0.03),
        0,
        0,
    );
    let objects = vec![
        Sphere::new(0, p3(0.0, -2.5, -8.0), fx(2.0), white_lambert),
        Sphere::new(1, p3(0.0, 2.5, -8.0), fx(1.5), lamp),
    ];
    let camera = raybird::camera::Camera::new(
        p3(0.0, 0.0, 7.0),
        fx(0.024),
        fx(0.040),
        fx(15.0),
        fx(1.4),
        0,
        0,
    );
    Scene::new(objects, camera)
}

#[test]
fn render_converges_and_keeps_the_background() {
    let scene = two_sphere_scene();
    let mut rng = Rng::from_seed(42);

    // Sample-to-sample convergence: the running mean of one pixel's
    // radiance settles as samples accumulate.
    let ray = Ray { origin: p3(0.0, 0.0, 7.0), direction: v3(0.0, -0.05, -1.0).normalize() };
    let sampler = StratisfiedImageSampler::new(&scene, ray, 1, 6);
    let total_samples = 400usize;
    let mut sum = 0.0f64;
    let mut mean_at_50 = 0.0f64;
    let mut mean_at_200 = 0.0f64;
    let mut i = 0usize;
    while i < total_samples {
        let s = sampler.next_sample(&mut rng);
        sum += to_f(s.x) + to_f(s.y) + to_f(s.z);
        i += 1;
        if i == 50 {
            mean_at_50 = sum / 50.0;
        }
        if i == 200 {
            mean_at_200 = sum / 200.0;
        }
    }
    let mean_final = sum / total_samples as f64;
    let d_early = (mean_at_50 - mean_final).abs();
    let d_late = (mean_at_200 - mean_final).abs();
    assert!(
        d_late <= d_early + 1e-9,
        "running mean drifted: early {} late {} final {}",
        d_early,
        d_late,
        mean_final
    );

    // Background region: a ray that misses both spheres carries exactly
    // the configured background radiance, every sample.
    let miss = Ray { origin: p3(0.0, 0.0, 7.0), direction: v3(0.9, 0.0, 0.43).normalize() };
    let bg_sampler = StratisfiedImageSampler::new(&scene, miss, 1, 6);
    let mut k = 0;
    while k < 20 {
        let s = bg_sampler.next_sample(&mut rng);
        assert_eq!(s.x, FX_ONE);
        assert_eq!(s.y, 0);
        assert_eq!(s.z, 0);
        k += 1;
    }
}

#[test]
fn tracer_update_walks_the_raster() {
    let scene = two_sphere_scene();
    let mut rng = Rng::from_seed(3);
    let (w, h) = (4usize, 4usize);
    let mut tracer = SingleThreadedTracer::new(4, fx(2.2), w, h);
    let mut screen = CollectingScreen { pixels: vec![(0, 0, 0); w * h] };
    let mut i = 0usize;
    while i < 2 * w * h {
        tracer.update(&scene, &mut screen, &mut rng);
        i += 1;
    }
    // Every pixel was visited twice; the wide view mostly sees the red
    // background, so red light must have reached the screen.
    assert!(screen.pixels.iter().any(|p| p.0 > 0));
    assert_eq!(screen.pixels.len(), w * h);
}

#[test]
fn pixel_buffer_packs_rgba() {
    let mut buf = PixelBufferScreen::new(4);
    assert_eq!(buf.data.len(), 16);
    buf.write(2, 10, 20, 30);
    assert_eq!(&buf.data[8..12], &[10, 20, 30, 255]);
    assert_eq!(&buf.data[0..8], &[0; 8]);
    assert_eq!(&buf.data[12..16], &[0; 4]);
    let before = buf.data.clone();
    buf.write(4, 1, 2, 3);
    assert_eq!(buf.data, before);
}
