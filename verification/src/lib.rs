//! The deciding half of a Monte Carlo ray tracer for scenes of spheres.
//!
//! A renderer of this kind alternates arithmetic on real numbers with
//! decisions: which root of a quadratic is the hit, which primitive is the
//! closest, which side of a surface was struck, whether a material scatters or
//! absorbs, when a path ends. The decisions live in this crate, each with a
//! contract; the arithmetic and the random draws are the caller's.

pub mod scalar;
pub mod vec3;
pub mod utility;
pub mod ray;
pub mod hitrecord;
pub mod material;
pub mod hittable;
pub mod integrator;
