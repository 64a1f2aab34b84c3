//! Spheres and their quadratic intersection test.

use vstd::prelude::*;

use crate::fixed::{
    fp_add, fp_add_spec, fp_div, fp_div_spec, fp_mul, fp_mul_spec, fp_sqrt, fp_sqrt_spec, fp_sub,
    fp_sub_spec, isqrt, lemma_fp_div_monotone_num, lemma_fp_mul_zero, lemma_fp_sqrt_nonneg,
    lemma_fp_square_nonneg, lemma_isqrt_exists, lemma_tdiv_mul_le, lemma_tdiv_nonpos, tdiv, FP_ONE,
};
use crate::hittable::{front_face_spec, oriented_normal_spec, HitRecord};
use crate::interval::{surrounds_spec, Interval};
use crate::material::Material;
use crate::ray::{ray_at_spec, Ray};
use crate::vec3::{dot_spec, lemma_dot_self_nonneg, vdiv_scalar_spec, vsub_spec, Vec3};

verus! {

/// A sphere with a center, a radius and a shared material.
#[derive(Clone, Copy, PartialEq, Eq, Structural, Debug)]
pub struct Sphere {
    pub center: Vec3,
    pub radius: i64,
    pub mat: Material,
}

/// Spec mirror of the sphere intersection: the reduced-discriminant
/// quadratic, both roots tried in ascending order, each accepted only
/// strictly inside `ray_t`.
pub open spec fn sphere_hit_spec(s: Sphere, r: Ray, ray_t: Interval) -> Option<HitRecord> {
    let oc = vsub_spec(s.center, r.orig);
    let a = dot_spec(r.dir, r.dir);
    let h = dot_spec(r.dir, oc);
    let c = fp_sub_spec(dot_spec(oc, oc), fp_mul_spec(s.radius, s.radius));
    let discriminant = fp_sub_spec(fp_mul_spec(h, h), fp_mul_spec(a, c));
    if discriminant < 0 {
        None
    } else {
        let sqrtd = fp_sqrt_spec(discriminant);
        let root1 = fp_div_spec(fp_sub_spec(h, sqrtd), a);
        let root = if surrounds_spec(ray_t, root1) {
            root1
        } else {
            fp_div_spec(fp_add_spec(h, sqrtd), a)
        };
        if !surrounds_spec(ray_t, root) {
            None
        } else {
            let p = ray_at_spec(r, root);
            let outward_normal = vdiv_scalar_spec(vsub_spec(p, s.center), s.radius);
            Some(
                HitRecord {
                    p,
                    normal: oriented_normal_spec(r, outward_normal),
                    mat: s.mat,
                    t: root,
                    front_face: front_face_spec(r, outward_normal),
                },
            )
        }
    }
}

/// The candidate roots of the sphere quadratic come out in ascending
/// order, so the nearer one is always tried first.
proof fn lemma_sphere_roots_ordered(s: Sphere, r: Ray)
    ensures
        ({
            let oc = vsub_spec(s.center, r.orig);
            let a = dot_spec(r.dir, r.dir);
            let h = dot_spec(r.dir, oc);
            let c = fp_sub_spec(dot_spec(oc, oc), fp_mul_spec(s.radius, s.radius));
            let discriminant = fp_sub_spec(fp_mul_spec(h, h), fp_mul_spec(a, c));
            let sqrtd = fp_sqrt_spec(discriminant);
            fp_div_spec(fp_sub_spec(h, sqrtd), a) <= fp_div_spec(fp_add_spec(h, sqrtd), a)
        }),
{
    let oc = vsub_spec(s.center, r.orig);
    let a = dot_spec(r.dir, r.dir);
    let h = dot_spec(r.dir, oc);
    let c = fp_sub_spec(dot_spec(oc, oc), fp_mul_spec(s.radius, s.radius));
    let discriminant = fp_sub_spec(fp_mul_spec(h, h), fp_mul_spec(a, c));
    let sqrtd = fp_sqrt_spec(discriminant);
    lemma_dot_self_nonneg(r.dir);
    lemma_fp_sqrt_nonneg(discriminant);
    lemma_fp_div_monotone_num(fp_sub_spec(h, sqrtd), fp_add_spec(h, sqrtd), a);
}

/// Widening the admissible range does not change a successful hit: the
/// same root stays the chosen one.
pub proof fn lemma_sphere_hit_widen(s: Sphere, r: Ray, m: i64, mx1: i64, mx2: i64)
    requires
        mx1 <= mx2,
        sphere_hit_spec(s, r, Interval { min: m, max: mx1 }) is Some,
    ensures
        sphere_hit_spec(s, r, Interval { min: m, max: mx2 }) == sphere_hit_spec(
            s,
            r,
            Interval { min: m, max: mx1 },
        ),
{
    lemma_sphere_roots_ordered(s, r);
}

/// Shrinking the admissible range down to anything still above the hit
/// parameter keeps the same hit.
pub proof fn lemma_sphere_hit_narrow(s: Sphere, r: Ray, m: i64, mx1: i64, mx2: i64, rec: HitRecord)
    requires
        mx2 <= mx1,
        sphere_hit_spec(s, r, Interval { min: m, max: mx1 }) == Some(rec),
        rec.t < mx2,
    ensures
        sphere_hit_spec(s, r, Interval { min: m, max: mx2 }) == Some(rec),
{
    lemma_sphere_roots_ordered(s, r);
}

/// A successful hit parameter lies strictly inside the queried range.
pub proof fn lemma_sphere_hit_t_bounds(s: Sphere, r: Ray, ray_t: Interval)
    ensures
        sphere_hit_spec(s, r, ray_t) matches Some(rec) ==> ray_t.min < rec.t < ray_t.max,
{
}

/// Law: a ray that starts on a sphere's surface and points outward
/// reports no intersection within any range of strictly positive
/// parameters — the open containment test guards against
/// self-intersection. "On the surface" and "outward" are the
/// fixed-point computations the tracer itself makes: the centered
/// quadratic's constant term vanishes and the direction does not point
/// toward the center.
pub proof fn lemma_self_intersection_guard(s: Sphere, r: Ray, ray_t: Interval)
    requires
        ray_t.min > 0,
        fp_sub_spec(
            dot_spec(vsub_spec(s.center, r.orig), vsub_spec(s.center, r.orig)),
            fp_mul_spec(s.radius, s.radius),
        ) == 0,
        dot_spec(r.dir, vsub_spec(s.center, r.orig)) <= 0,
    ensures
        sphere_hit_spec(s, r, ray_t) is None,
{
    let oc = vsub_spec(s.center, r.orig);
    let a = dot_spec(r.dir, r.dir);
    let h = dot_spec(r.dir, oc);
    let c = fp_sub_spec(dot_spec(oc, oc), fp_mul_spec(s.radius, s.radius));
    let discriminant = fp_sub_spec(fp_mul_spec(h, h), fp_mul_spec(a, c));
    lemma_dot_self_nonneg(r.dir);
    lemma_fp_mul_zero(a);
    lemma_fp_square_nonneg(h);
    assert(discriminant == fp_mul_spec(h, h));

    let sqrtd = fp_sqrt_spec(discriminant);
    lemma_fp_sqrt_nonneg(discriminant);
    assert(sqrtd <= -(h as int)) by {
        if discriminant > 0 {
            let hh = (h as int) * (h as int);
            assert(hh >= 0) by {
                if h >= 0 {
                    vstd::arithmetic::mul::lemma_mul_nonnegative(h as int, h as int);
                } else {
                    vstd::arithmetic::mul::lemma_mul_cancels_negatives(h as int, h as int);
                    vstd::arithmetic::mul::lemma_mul_nonnegative(-h as int, -h as int);
                }
            }
            let q = tdiv(hh, FP_ONE as int);
            assert(discriminant as int <= q);
            assert((discriminant as int) * (FP_ONE as int) <= q * (FP_ONE as int)) by {
                vstd::arithmetic::mul::lemma_mul_inequality(
                    discriminant as int,
                    q,
                    FP_ONE as int,
                );
            }
            lemma_tdiv_mul_le(hh, FP_ONE as int);
            let n = (discriminant as int) * (FP_ONE as int);
            lemma_isqrt_exists(n);
            let rq = isqrt(n);
            assert(rq <= -(h as int)) by (nonlinear_arith)
                requires
                    0 <= rq,
                    rq * rq <= n,
                    n <= (h as int) * (h as int),
                    h <= 0;
        }
    }

    let num1 = fp_sub_spec(h, sqrtd);
    let num2 = fp_add_spec(h, sqrtd);
    assert(num1 <= 0 && num2 <= 0);

    assert(fp_div_spec(num1, a) < ray_t.min || fp_div_spec(num1, a) >= ray_t.max) by {
        lemma_nonpos_over_nonneg_not_surrounded(num1, a, ray_t);
    }
    assert(fp_div_spec(num2, a) < ray_t.min || fp_div_spec(num2, a) >= ray_t.max) by {
        lemma_nonpos_over_nonneg_not_surrounded(num2, a, ray_t);
    }
}

/// A nonpositive numerator over a nonnegative denominator lands outside
/// any strictly positive open range: either it is nonpositive, or the
/// division saturated at the very top of the fixed-point range.
proof fn lemma_nonpos_over_nonneg_not_surrounded(num: i64, a: i64, ray_t: Interval)
    requires
        num <= 0,
        a >= 0,
        ray_t.min > 0,
    ensures
        fp_div_spec(num, a) < ray_t.min || fp_div_spec(num, a) >= ray_t.max,
{
    if a == 0 {
        if num >= 0 {
            assert(fp_div_spec(num, a) == i64::MAX);
        } else {
            assert(fp_div_spec(num, a) == i64::MIN);
        }
    } else {
        assert((num as int) * (FP_ONE as int) <= 0) by {
            vstd::arithmetic::mul::lemma_mul_inequality(num as int, 0, FP_ONE as int);
            vstd::arithmetic::mul::lemma_mul_basics(FP_ONE as int);
        }
        lemma_tdiv_nonpos((num as int) * (FP_ONE as int), a as int);
    }
}

impl Sphere {
    /// A sphere with the given position, size and material.
    pub fn new(center: Vec3, radius: i64, mat: Material) -> (r: Sphere)
        ensures
            r == (Sphere { center, radius, mat }),
    {
        Sphere { center, radius, mat }
    }

    /// The nearest intersection of the ray with this sphere strictly
    /// inside `ray_t`, if any.
    pub fn hit(&self, r: &Ray, ray_t: Interval) -> (res: Option<HitRecord>)
        ensures
            res == sphere_hit_spec(*self, *r, ray_t),
    {
        let oc = self.center.sub(r.origin());
        let a = r.direction().dot(r.direction());
        let h = r.direction().dot(oc);
        let c = fp_sub(oc.dot(oc), fp_mul(self.radius, self.radius));

        let discriminant = fp_sub(fp_mul(h, h), fp_mul(a, c));
        if discriminant < 0 {
            return None;
        }

        let sqrtd = fp_sqrt(discriminant);

        let mut root = fp_div(fp_sub(h, sqrtd), a);
        if !ray_t.surrounds(root) {
            root = fp_div(fp_add(h, sqrtd), a);
            if !ray_t.surrounds(root) {
                return None;
            }
        }

        let mut rec = HitRecord::new(r.at(root), root, self.mat);
        let outward_normal = rec.p.sub(self.center).div_scalar(self.radius);
        rec.set_face_normal(r, outward_normal);
        Some(rec)
    }
}

} // verus!
