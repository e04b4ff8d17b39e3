//! Float-free core of a Monte Carlo path tracer: surface orientation, the materials'
//! scattering decisions, the scene container, the depth-limited integrator's steps and
//! the progressive per-pixel accumulator. The vector arithmetic is supplied by the caller
//! through the generic vector and scalar types.

pub mod accumulator;
pub mod integrator;
pub mod scatter;
pub mod surface;
pub mod world;

pub use accumulator::{channel_byte, Accumulator};
pub use integrator::{Interaction, PathBudget, PathStep};
pub use scatter::{Dielectric, Lambertian, Material, Metal, Ray, ScatterRecord};
pub use surface::{FaceKind, HitRecord};
pub use world::World;
