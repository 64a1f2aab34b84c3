//! A recursive Monte Carlo path tracer over fixed-point arithmetic.
//!
//! Every geometric and color quantity is a signed 64-bit fixed-point number
//! holding multiples of `1 / FP_ONE`. All arithmetic saturates at the `i64`
//! range, so every operation is total and its result is pinned down exactly
//! by a spec-level mirror.

pub mod camera;
pub mod color;
pub mod cube;
pub mod fixed;
pub mod hittable;
pub mod interval;
pub mod material;
pub mod random;
pub mod ray;
pub mod sphere;
pub mod vec3;
