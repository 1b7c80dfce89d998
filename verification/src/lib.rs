//! A ray tracer over a fixed-point numeric model.
//!
//! Every coordinate, color channel and ray parameter is a signed 64-bit
//! integer holding the value scaled by `fixed::FX_ONE` (2^16). All arithmetic
//! is specified exactly: each executable function's result equals a spec-level
//! function of its inputs, so whole renders are reproducible by contract.

pub mod camera;
pub mod fixed;
pub mod hit;
pub mod laws;
pub mod ray;
pub mod rng;
pub mod rgb;
pub mod scatter;
pub mod sphere;
pub mod trace;
pub mod vec3;
