//! Random sampling utilities: uniform fixed-point scalars and vectors,
//! and the rejection-sampled disk and sphere-direction samples the camera
//! and the materials draw from.
//!
//! Rejection sampling is bounded: after a fixed number of failed draws a
//! known-good sample is used instead, so every loop terminates.

use vstd::prelude::*;

use crate::fixed::{fp_add, fp_mul, fp_sub, tdiv, FP_HALF, FP_ONE};
use crate::vec3::{length_sq_spec, unit_spec, Vec3};

verus! {

/// How many failed rejection draws are tolerated before the fallback
/// sample is used.
pub const MAX_REJECTION_TRIES: u32 = 64;

/// Relies on rand::random: one 64-bit word drawn from the thread-local
/// generator. Nothing is assumed of its value.
#[verifier::external_body]
fn random_bits() -> u64 {
    rand::random::<u64>()
}

/// A uniform fixed-point sample in `[0, 1)`.
pub fn random_fraction() -> (r: i64)
    ensures
        0 <= r < FP_ONE,
{
    let b = random_bits();
    (b % 65536) as i64
}

/// A uniform fixed-point sample in `[min, max)` (up to fixed-point
/// rounding; `max` itself is never reached when `min < max`).
pub fn random_range(min: i64, max: i64) -> (r: i64)
    ensures
        min <= max ==> min <= r <= max,
        min < max ==> r < max,
{
    let u = random_fraction();
    let d = fp_sub(max, min);
    let v = fp_mul(d, u);
    proof {
        if min <= max {
            assert(0 <= d <= max - min);
            if d > 0 {
                assert((d as int) * (u as int) < (d as int) * (FP_ONE as int)) by {
                    vstd::arithmetic::mul::lemma_mul_strict_inequality(
                        u as int,
                        FP_ONE as int,
                        d as int,
                    );
                    vstd::arithmetic::mul::lemma_mul_is_commutative(d as int, u as int);
                    vstd::arithmetic::mul::lemma_mul_is_commutative(d as int, FP_ONE as int);
                }
                assert((d as int) * (u as int) >= 0) by {
                    vstd::arithmetic::mul::lemma_mul_nonnegative(d as int, u as int);
                }
                assert(tdiv((d as int) * (u as int), FP_ONE as int) < d as int) by {
                    vstd::arithmetic::div_mod::lemma_multiply_divide_lt(
                        (d as int) * (u as int),
                        FP_ONE as int,
                        d as int,
                    );
                    vstd::arithmetic::mul::lemma_mul_is_commutative(FP_ONE as int, d as int);
                }
                assert(tdiv((d as int) * (u as int), FP_ONE as int) >= 0) by {
                    vstd::arithmetic::div_mod::lemma_div_pos_is_pos(
                        (d as int) * (u as int),
                        FP_ONE as int,
                    );
                }
                assert(0 <= v < d);
            } else {
                assert(d == 0);
                assert((d as int) * (u as int) == 0) by {
                    vstd::arithmetic::mul::lemma_mul_by_zero_is_zero(u as int);
                }
                assert(tdiv(0, FP_ONE as int) == 0);
                assert(v == 0);
            }
        }
    }
    fp_add(min, v)
}

/// A random vector with each component in `[0, 1)`.
pub fn random_vector() -> (r: Vec3)
    ensures
        0 <= r.x < FP_ONE,
        0 <= r.y < FP_ONE,
        0 <= r.z < FP_ONE,
{
    Vec3::new(random_fraction(), random_fraction(), random_fraction())
}

/// A random vector with each component in `[min, max)`.
pub fn random_vector_range(min: i64, max: i64) -> (r: Vec3)
    ensures
        min <= max ==> min <= r.x <= max && min <= r.y <= max && min <= r.z <= max,
        min < max ==> r.x < max && r.y < max && r.z < max,
{
    Vec3::new(random_range(min, max), random_range(min, max), random_range(min, max))
}

/// A jitter offset uniform over the half-open unit square centered at
/// the origin of the xy-plane.
pub fn sample_square() -> (r: Vec3)
    ensures
        -FP_HALF <= r.x < FP_HALF,
        -FP_HALF <= r.y < FP_HALF,
        r.z == 0,
{
    Vec3::new(
        fp_sub(random_fraction(), FP_HALF),
        fp_sub(random_fraction(), FP_HALF),
        0,
    )
}

/// A point sampled inside the unit disk of the xy-plane.
pub fn random_in_unit_disk() -> (r: Vec3)
    ensures
        length_sq_spec(r) < FP_ONE,
        r.z == 0,
{
    let mut tries: u32 = 0;
    while tries < MAX_REJECTION_TRIES
        decreases MAX_REJECTION_TRIES - tries,
    {
        let p = Vec3::new(random_range(-FP_ONE, FP_ONE), random_range(-FP_ONE, FP_ONE), 0);
        if p.length_squared() < FP_ONE {
            return p;
        }
        tries = tries + 1;
    }
    let origin = Vec3::zero();
    proof {
        assert(length_sq_spec(origin) == 0);
    }
    origin
}

/// The result of normalizing some admissible rejection sample: the shape
/// of every direction `random_unit_vector` can return.
pub open spec fn unit_sample(u: Vec3) -> bool {
    exists|p: Vec3|
        0 < length_sq_spec(p) <= FP_ONE && u == unit_spec(p)
}

/// A direction sampled (approximately) uniformly over the unit sphere:
/// a rejection-sampled cube point with admissible squared length,
/// normalized.
pub fn random_unit_vector() -> (r: Vec3)
    ensures
        unit_sample(r),
{
    let mut tries: u32 = 0;
    while tries < MAX_REJECTION_TRIES
        decreases MAX_REJECTION_TRIES - tries,
    {
        let p = Vec3::new(
            random_range(-FP_ONE, FP_ONE),
            random_range(-FP_ONE, FP_ONE),
            random_range(-FP_ONE, FP_ONE),
        );
        let lensq = p.length_squared();
        if 0 < lensq && lensq <= FP_ONE {
            let u = p.unit_vector();
            proof {
                assert(0 < length_sq_spec(p) <= FP_ONE && u == unit_spec(p));
            }
            return u;
        }
        tries = tries + 1;
    }
    let axis = Vec3::new(FP_ONE, 0, 0);
    let u = axis.unit_vector();
    proof {
        lemma_unit_axis_admissible();
        assert(0 < length_sq_spec(axis) <= FP_ONE && u == unit_spec(axis));
    }
    u
}

/// The positive-x axis vector is an admissible rejection sample: its
/// squared length is exactly one.
proof fn lemma_unit_axis_admissible()
    ensures
        length_sq_spec(Vec3 { x: FP_ONE, y: 0i64, z: 0i64 }) == FP_ONE,
{
    let axis = Vec3 { x: FP_ONE, y: 0i64, z: 0i64 };
    assert(tdiv((FP_ONE as int) * (FP_ONE as int), FP_ONE as int) == FP_ONE as int) by {
        vstd::arithmetic::div_mod::lemma_div_multiples_vanish(FP_ONE as int, FP_ONE as int);
    }
    assert(tdiv(0, FP_ONE as int) == 0);
    assert(length_sq_spec(axis) == FP_ONE);
}

} // verus!
