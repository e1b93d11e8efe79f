//! The thin-lens camera: a pixel plus two jitter draws and an aperture
//! sample become a world-space ray.

use vstd::prelude::*;
use crate::fx::{
    Fx, FX_ONE, fx_add, fx_add_spec, fx_div, fx_div_int, fx_div_int_spec, fx_div_spec,
    fx_from_int, fx_from_int_spec, fx_mul, fx_mul_spec, fx_neg, fx_neg_spec, fx_sqrt, fx_sub,
    fx_sub_spec, spec_fx_sqrt,
};
use crate::trig::{FX_TWO_PI, fx_cos, fx_sin, spec_cos, spec_sin};
use crate::ray::Ray;
use crate::rng::Rng;
use crate::vec3::{
    Point3, V3, Vec3, v3_add, v3_cross, v3_dot, v3_normalize, v3_scale, v3_sub,
};

verus! {

/// The scalar closest to pi/180, taking degrees to radians.
pub const FX_DEG_TO_RAD: i64 = 74961321;

/// The scalar for one half.
pub const FX_HALF: i64 = 0x8000_0000;

/// The model of a camera: its derived configuration as raw integers.
pub ghost struct CameraV {
    pub position: V3,
    pub sensor: int,
    pub object_distance: int,
    pub aperture: int,
    pub image_distance: int,
    pub vertical_angle: int,
    pub horizontal_angle: int,
}

/// An immutable thin-lens camera configuration.
pub struct Camera {
    position: Point3,
    sensor: Fx,
    object_distance: Fx,
    aperture: Fx,
    image_distance: Fx,
    vertical_angle: Fx,
    horizontal_angle: Fx,
}

impl View for Camera {
    type V = CameraV;

    closed spec fn view(&self) -> CameraV {
        CameraV {
            position: self.position@,
            sensor: self.sensor as int,
            object_distance: self.object_distance as int,
            aperture: self.aperture as int,
            image_distance: self.image_distance as int,
            vertical_angle: self.vertical_angle as int,
            horizontal_angle: self.horizontal_angle as int,
        }
    }
}

/// A vector rotated around an axis by an angle in degrees, by the
/// axis-angle (Rodrigues) formula.
pub open spec fn spec_angle_axis(direction: V3, angle: int, axis: V3) -> V3 {
    let theta = fx_mul_spec(angle, FX_DEG_TO_RAD as int);
    let c = spec_cos(theta);
    let s = spec_sin(theta);
    let first = v3_scale(direction, c);
    let second = v3_scale(v3_cross(axis, direction), s);
    let third = v3_scale(
        v3_scale(axis, v3_dot(axis, direction)),
        fx_sub_spec(FX_ONE as int, c),
    );
    v3_add(v3_add(first, second), third)
}

/// A direction turned by the camera's pitch and yaw.
pub open spec fn spec_rotated(cam: CameraV, direction: V3) -> V3 {
    let x_axis = V3 { x: -(FX_ONE as int), y: 0, z: 0 };
    let y_axis = V3 { x: 0, y: -(FX_ONE as int), z: 0 };
    let d1 = spec_angle_axis(direction, cam.vertical_angle, x_axis);
    spec_angle_axis(d1, cam.horizontal_angle, y_axis)
}

/// The jittered point on the virtual sensor plane for a pixel.
pub open spec fn spec_sensor_point(
    cam: CameraV,
    x: int,
    y: int,
    width: int,
    height: int,
    ju: int,
    jv: int,
) -> V3 {
    let aspect = fx_div_spec(fx_from_int_spec(width), fx_from_int_spec(height));
    let vx = fx_mul_spec(
        fx_sub_spec(
            fx_div_spec(fx_add_spec(fx_from_int_spec(x), ju), fx_from_int_spec(width)),
            FX_HALF as int,
        ),
        aspect,
    );
    let vy = fx_sub_spec(
        fx_div_spec(fx_add_spec(fx_from_int_spec(y), jv), fx_from_int_spec(height)),
        FX_HALF as int,
    );
    V3 {
        x: fx_neg_spec(fx_mul_spec(vx, cam.sensor)),
        y: fx_mul_spec(vy, cam.sensor),
        z: cam.image_distance,
    }
}

/// The point the lens focuses the given sensor point onto.
pub open spec fn spec_focus_point(cam: CameraV, sensor_point: V3) -> V3 {
    let sensor_to_lens = v3_normalize(v3_sub(V3 { x: 0, y: 0, z: 0 }, sensor_point));
    let focus_ratio = fx_div_spec(cam.object_distance, sensor_to_lens.z);
    v3_scale(sensor_to_lens, focus_ratio)
}

/// The point drawn on the lens aperture disk from two unit draws.
pub open spec fn spec_aperture_point(cam: CameraV, au: int, av: int) -> V3 {
    let r_max = fx_div_int_spec(cam.aperture, 2);
    let r = spec_fx_sqrt(fx_mul_spec(au, fx_mul_spec(r_max, r_max)));
    let angle = fx_mul_spec(av, FX_TWO_PI as int);
    V3 { x: fx_mul_spec(r, spec_cos(angle)), y: fx_mul_spec(r, spec_sin(angle)), z: 0 }
}

/// The ray of a pixel given the four unit draws of the sample.
#[verifier::opaque]
pub open spec fn spec_camera_ray(
    cam: CameraV,
    x: int,
    y: int,
    width: int,
    height: int,
    ju: int,
    jv: int,
    au: int,
    av: int,
) -> V3 {
    let sensor_point = spec_sensor_point(cam, x, y, width, height, ju, jv);
    let focus_point = spec_focus_point(cam, sensor_point);
    let aperture_point = spec_aperture_point(cam, au, av);
    spec_rotated(cam, v3_normalize(v3_sub(focus_point, aperture_point)))
}

/// Rotate a direction around an axis by an angle in degrees.
fn angle_axis(direction: &Vec3, angle: Fx, axis: &Vec3) -> (r: Vec3)
    ensures
        r@ == spec_angle_axis(direction@, angle as int, axis@),
{
    let theta = fx_mul(angle, FX_DEG_TO_RAD);
    let c = fx_cos(theta);
    let s = fx_sin(theta);
    let first = direction.scale(c);
    let second = axis.cross(direction).scale(s);
    let third = axis.scale(axis.dot(direction)).scale(fx_sub(FX_ONE, c));
    first.add(&second).add(&third)
}

impl Camera {
    /// A camera at `position` with the given sensor size, focal length,
    /// focus distance, f-stop and view angles; the lens-to-image distance
    /// follows from the thin-lens equation.
    pub fn new(
        position: Point3,
        sensor: Fx,
        focal_length: Fx,
        focus: Fx,
        fstop: Fx,
        horizontal_angle: Fx,
        vertical_angle: Fx,
    ) -> (c: Camera)
        ensures
            c@ == (CameraV {
                position: position@,
                sensor: sensor as int,
                object_distance: fx_neg_spec(focus as int),
                aperture: fx_div_spec(focal_length as int, fstop as int),
                image_distance: fx_div_spec(
                    FX_ONE as int,
                    fx_sub_spec(
                        fx_div_spec(FX_ONE as int, focal_length as int),
                        fx_div_spec(FX_ONE as int, fx_neg_spec(focus as int)),
                    ),
                ),
                vertical_angle: vertical_angle as int,
                horizontal_angle: horizontal_angle as int,
            }),
    {
        Camera {
            position,
            sensor,
            object_distance: fx_neg(focus),
            aperture: fx_div(focal_length, fstop),
            image_distance: fx_div(
                FX_ONE,
                fx_sub(fx_div(FX_ONE, focal_length), fx_div(FX_ONE, fx_neg(focus))),
            ),
            vertical_angle,
            horizontal_angle,
        }
    }

    /// The camera's position.
    pub fn position(&self) -> (r: Point3)
        ensures
            r@ == self@.position,
    {
        self.position
    }

    /// The ray of pixel `(x, y)` on a `width` by `height` image, jittered
    /// inside the pixel and across the aperture by four fresh unit draws.
    pub fn ray(&self, x: usize, y: usize, width: usize, height: usize, rng: &mut Rng) -> (r: Ray)
        requires
            x < width <= 0x7fff_ffff,
            y < height <= 0x7fff_ffff,
        ensures
            r.origin@ == self@.position,
            exists|ju: int, jv: int, au: int, av: int|
                0 <= ju < FX_ONE && 0 <= jv < FX_ONE && 0 <= au < FX_ONE && 0 <= av < FX_ONE
                    && r.direction@ == spec_camera_ray(
                    self@,
                    x as int,
                    y as int,
                    width as int,
                    height as int,
                    ju,
                    jv,
                    au,
                    av,
                ),
    {
        let ju = rng.next_unit();
        let jv = rng.next_unit();
        let sensor_point = self.sensor_point(x, y, width, height, ju, jv);
        let focus_point = self.focus_point(sensor_point);
        let au = rng.next_unit();
        let av = rng.next_unit();
        let aperture_point = self.aperture_point(au, av);
        let direction = focus_point.sub(&aperture_point).normalize();
        let rotated = self.rotated(&direction);
        proof {
            reveal(spec_camera_ray);
            assert(rotated@ == spec_camera_ray(
                self@,
                x as int,
                y as int,
                width as int,
                height as int,
                ju as int,
                jv as int,
                au as int,
                av as int,
            ));
        }
        Ray { origin: self.position, direction: rotated }
    }

    /// Turn a direction by the configured pitch and yaw.
    fn rotated(&self, direction: &Vec3) -> (r: Vec3)
        ensures
            r@ == spec_rotated(self@, direction@),
    {
        let x_axis = Vec3::new(-FX_ONE, 0, 0);
        let y_axis = Vec3::new(0, -FX_ONE, 0);
        let direction1 = angle_axis(direction, self.vertical_angle, &x_axis);
        angle_axis(&direction1, self.horizontal_angle, &y_axis)
    }

    /// The point the lens focuses a sensor point onto.
    fn focus_point(&self, sensor_point: Point3) -> (r: Vec3)
        ensures
            r@ == spec_focus_point(self@, sensor_point@),
    {
        let origin = Point3::new(0, 0, 0);
        let sensor_to_lens = origin.sub(&sensor_point).normalize();
        let focus_ratio = fx_div(self.object_distance, sensor_to_lens.z);
        sensor_to_lens.scale(focus_ratio)
    }

    /// The jittered sensor-plane point of a pixel.
    fn sensor_point(&self, x: usize, y: usize, width: usize, height: usize, ju: Fx, jv: Fx) -> (r:
        Point3)
        requires
            x < width <= 0x7fff_ffff,
            y < height <= 0x7fff_ffff,
        ensures
            r@ == spec_sensor_point(
                self@,
                x as int,
                y as int,
                width as int,
                height as int,
                ju as int,
                jv as int,
            ),
    {
        let wf = fx_from_int(width as i64);
        let hf = fx_from_int(height as i64);
        let aspect = fx_div(wf, hf);
        let vx = fx_mul(
            fx_sub(fx_div(fx_add(fx_from_int(x as i64), ju), wf), FX_HALF),
            aspect,
        );
        let vy = fx_sub(fx_div(fx_add(fx_from_int(y as i64), jv), hf), FX_HALF);
        let sensor_x = fx_neg(fx_mul(vx, self.sensor));
        let sensor_y = fx_mul(vy, self.sensor);
        Point3::new(sensor_x, sensor_y, self.image_distance)
    }

    /// The point of the aperture disk the two unit draws select.
    fn aperture_point(&self, au: Fx, av: Fx) -> (r: Vec3)
        ensures
            r@ == spec_aperture_point(self@, au as int, av as int),
    {
        let r_max = fx_div_int(self.aperture, 2);
        let radius = fx_sqrt(fx_mul(au, fx_mul(r_max, r_max)));
        let angle = fx_mul(av, FX_TWO_PI);
        Vec3::new(fx_mul(radius, fx_cos(angle)), fx_mul(radius, fx_sin(angle)), 0)
    }
}

} // verus!
