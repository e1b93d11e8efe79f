//! A Monte Carlo light-transport renderer over saturating fixed-point
//! arithmetic: camera ray generation, sphere intersection, probabilistic
//! material scattering with next-event light sampling, and a per-pixel
//! exposure buffer with gamma-corrected read-out.

pub mod camera;
pub mod fx;
pub mod trig;
pub mod material;
pub mod onb;
pub mod ray;
pub mod rng;
pub mod scene;
pub mod scene_loader;
pub mod sensor;
pub mod sphere;
pub mod tracer;
pub mod vec3;

pub use fx::Fx;
