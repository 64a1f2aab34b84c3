//! Axis-aligned cubes and their slab intersection test.

use vstd::prelude::*;

use crate::fixed::{fp_div, fp_div_spec, fp_mul, fp_mul_spec, fp_sub, fp_sub_spec, FP_ONE, FP_TWO};
use crate::hittable::{front_face_spec, oriented_normal_spec, HitRecord};
use crate::interval::Interval;
use crate::material::Material;
use crate::ray::{ray_at_spec, Ray};
use crate::vec3::{vadd_spec, vneg_spec, vsub_spec, Vec3};

verus! {

/// An axis-aligned cube with a center, a side length and a shared
/// material.
#[derive(Clone, Copy, PartialEq, Eq, Structural, Debug)]
pub struct Cube {
    pub center: Vec3,
    pub length: i64,
    pub mat: Material,
}

/// Spec mirror of one slab step. The running `[t_min, t_max]` window is
/// tightened against the two bounding planes of one axis; when the entry
/// bound tightens strictly, that axis supplies the outward normal, so the
/// hit face is tracked during the scan rather than reconstructed from the
/// hit point afterwards. A zero direction component saturates to the
/// extremes of the range, which plays the role of an infinite inverse.
pub open spec fn slab_update_spec(
    t_min: i64,
    t_max: i64,
    n: Vec3,
    o_c: i64,
    d_c: i64,
    min_c: i64,
    max_c: i64,
    axis_pos: Vec3,
) -> (i64, i64, Vec3) {
    let inv_d = fp_div_spec(FP_ONE, d_c);
    let ta = fp_mul_spec(fp_sub_spec(min_c, o_c), inv_d);
    let tb = fp_mul_spec(fp_sub_spec(max_c, o_c), inv_d);
    let t0 = if inv_d < 0 {
        tb
    } else {
        ta
    };
    let t1 = if inv_d < 0 {
        ta
    } else {
        tb
    };
    let outward = if inv_d < 0 {
        axis_pos
    } else {
        vneg_spec(axis_pos)
    };
    let new_t_min = if t0 > t_min {
        t0
    } else {
        t_min
    };
    let new_n = if t0 > t_min {
        outward
    } else {
        n
    };
    let new_t_max = if t1 < t_max {
        t1
    } else {
        t_max
    };
    (new_t_min, new_t_max, new_n)
}

/// Spec mirror of the cube intersection: the three slab steps in order,
/// an empty window after any step meaning no hit. When no slab tightens
/// the entry bound (the ray starts inside the cube), the outward normal
/// keeps its positive-z starting value.
pub open spec fn cube_hit_spec(c: Cube, r: Ray, ray_t: Interval) -> Option<HitRecord> {
    let half = fp_div_spec(c.length, FP_TWO);
    let hvec = Vec3 { x: half, y: half, z: half };
    let minv = vsub_spec(c.center, hvec);
    let maxv = vadd_spec(c.center, hvec);
    let sx = slab_update_spec(
        ray_t.min,
        ray_t.max,
        Vec3 { x: 0, y: 0, z: FP_ONE },
        r.orig.x,
        r.dir.x,
        minv.x,
        maxv.x,
        Vec3 { x: FP_ONE, y: 0, z: 0 },
    );
    if sx.1 <= sx.0 {
        None
    } else {
        let sy = slab_update_spec(
            sx.0,
            sx.1,
            sx.2,
            r.orig.y,
            r.dir.y,
            minv.y,
            maxv.y,
            Vec3 { x: 0, y: FP_ONE, z: 0 },
        );
        if sy.1 <= sy.0 {
            None
        } else {
            let sz = slab_update_spec(
                sy.0,
                sy.1,
                sy.2,
                r.orig.z,
                r.dir.z,
                minv.z,
                maxv.z,
                Vec3 { x: 0, y: 0, z: FP_ONE },
            );
            if sz.1 <= sz.0 {
                None
            } else {
                let t = sz.0;
                let p = ray_at_spec(r, t);
                let outward_normal = sz.2;
                Some(
                    HitRecord {
                        p,
                        normal: oriented_normal_spec(r, outward_normal),
                        mat: c.mat,
                        t,
                        front_face: front_face_spec(r, outward_normal),
                    },
                )
            }
        }
    }
}

/// A successful hit parameter lies inside the queried range: at or
/// above its lower bound (a ray starting inside the cube is reported at
/// the bound itself) and strictly below its upper bound.
pub proof fn lemma_cube_hit_t_bounds(c: Cube, r: Ray, ray_t: Interval)
    ensures
        cube_hit_spec(c, r, ray_t) matches Some(rec) ==> ray_t.min <= rec.t < ray_t.max,
{
}

/// Widening the admissible range does not change a successful hit.
pub proof fn lemma_cube_hit_widen(c: Cube, r: Ray, m: i64, mx1: i64, mx2: i64)
    requires
        mx1 <= mx2,
        cube_hit_spec(c, r, Interval { min: m, max: mx1 }) is Some,
    ensures
        cube_hit_spec(c, r, Interval { min: m, max: mx2 }) == cube_hit_spec(
            c,
            r,
            Interval { min: m, max: mx1 },
        ),
{
}

/// Shrinking the admissible range down to anything still above the hit
/// parameter keeps the same hit.
pub proof fn lemma_cube_hit_narrow(c: Cube, r: Ray, m: i64, mx1: i64, mx2: i64, rec: HitRecord)
    requires
        mx2 <= mx1,
        cube_hit_spec(c, r, Interval { min: m, max: mx1 }) == Some(rec),
        rec.t < mx2,
    ensures
        cube_hit_spec(c, r, Interval { min: m, max: mx2 }) == Some(rec),
{
}

/// One executable slab step; see `slab_update_spec`.
fn slab_update(
    t_min: i64,
    t_max: i64,
    n: Vec3,
    o_c: i64,
    d_c: i64,
    min_c: i64,
    max_c: i64,
    axis_pos: Vec3,
) -> (r: (i64, i64, Vec3))
    ensures
        r == slab_update_spec(t_min, t_max, n, o_c, d_c, min_c, max_c, axis_pos),
{
    let inv_d = fp_div(FP_ONE, d_c);
    let ta = fp_mul(fp_sub(min_c, o_c), inv_d);
    let tb = fp_mul(fp_sub(max_c, o_c), inv_d);
    let (t0, t1) = if inv_d < 0 {
        (tb, ta)
    } else {
        (ta, tb)
    };
    let outward = if inv_d < 0 {
        axis_pos
    } else {
        axis_pos.neg()
    };
    let (new_t_min, new_n) = if t0 > t_min {
        (t0, outward)
    } else {
        (t_min, n)
    };
    let new_t_max = if t1 < t_max {
        t1
    } else {
        t_max
    };
    (new_t_min, new_t_max, new_n)
}

impl Cube {
    /// A cube with the given position, side length and material.
    pub fn new(center: Vec3, length: i64, mat: Material) -> (r: Cube)
        ensures
            r == (Cube { center, length, mat }),
    {
        Cube { center, length, mat }
    }

    /// The nearest intersection of the ray with this cube inside
    /// `ray_t`, if any.
    pub fn hit(&self, r: &Ray, ray_t: Interval) -> (res: Option<HitRecord>)
        ensures
            res == cube_hit_spec(*self, *r, ray_t),
    {
        let half = fp_div(self.length, FP_TWO);
        let hvec = Vec3::new(half, half, half);
        let minv = self.center.sub(hvec);
        let maxv = self.center.add(hvec);

        let o = r.origin();
        let d = r.direction();

        let sx = slab_update(
            ray_t.min,
            ray_t.max,
            Vec3::new(0, 0, FP_ONE),
            o.x,
            d.x,
            minv.x,
            maxv.x,
            Vec3::new(FP_ONE, 0, 0),
        );
        if sx.1 <= sx.0 {
            return None;
        }
        let sy = slab_update(sx.0, sx.1, sx.2, o.y, d.y, minv.y, maxv.y, Vec3::new(0, FP_ONE, 0));
        if sy.1 <= sy.0 {
            return None;
        }
        let sz = slab_update(sy.0, sy.1, sy.2, o.z, d.z, minv.z, maxv.z, Vec3::new(0, 0, FP_ONE));
        if sz.1 <= sz.0 {
            return None;
        }

        let mut rec = HitRecord::new(r.at(sz.0), sz.0, self.mat);
        rec.set_face_normal(r, sz.2);
        Some(rec)
    }
}

} // verus!
