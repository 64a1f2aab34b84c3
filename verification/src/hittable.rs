//! Hit records, the closed set of primitives, and the scene aggregate
//! that reports the globally nearest intersection.

use vstd::prelude::*;

use crate::cube::{
    cube_hit_spec, lemma_cube_hit_narrow, lemma_cube_hit_t_bounds, lemma_cube_hit_widen, Cube,
};
use crate::interval::Interval;
use crate::material::Material;
use crate::ray::Ray;
use crate::sphere::{
    lemma_sphere_hit_narrow, lemma_sphere_hit_t_bounds, lemma_sphere_hit_widen, sphere_hit_spec,
    Sphere,
};
use crate::vec3::{dot_spec, vneg_spec, Vec3};

verus! {

/// The result of a successful ray/geometry intersection.
#[derive(Clone, Copy, PartialEq, Eq, Structural, Debug)]
pub struct HitRecord {
    /// The point hit.
    pub p: Vec3,
    /// The surface normal, oriented against the incoming ray.
    pub normal: Vec3,
    /// The material of the surface hit.
    pub mat: Material,
    /// The ray parameter at the hit.
    pub t: i64,
    /// Whether the geometric outward normal already opposed the ray.
    pub front_face: bool,
}

/// Whether the ray approaches from the side the outward normal points
/// toward.
pub open spec fn front_face_spec(r: Ray, outward_normal: Vec3) -> bool {
    dot_spec(r.dir, outward_normal) < 0
}

/// The outward normal flipped, if needed, to oppose the incoming ray.
pub open spec fn oriented_normal_spec(r: Ray, outward_normal: Vec3) -> Vec3 {
    if front_face_spec(r, outward_normal) {
        outward_normal
    } else {
        vneg_spec(outward_normal)
    }
}

impl HitRecord {
    /// A record for a hit at `p` with parameter `t`; the normal is set
    /// afterwards through `set_face_normal`, never directly.
    pub fn new(p: Vec3, t: i64, mat: Material) -> (r: HitRecord)
        ensures
            r.p == p,
            r.t == t,
            r.mat == mat,
            r.normal == (Vec3 { x: 0i64, y: 0i64, z: 0i64 }),
            r.front_face == false,
    {
        HitRecord { p, normal: Vec3 { x: 0, y: 0, z: 0 }, mat, t, front_face: false }
    }

    /// Orient a geometry-supplied outward normal against the incoming
    /// ray, recording whether the outward side was the one hit.
    pub fn set_face_normal(&mut self, r: &Ray, outward_normal: Vec3)
        ensures
            final(self).front_face == front_face_spec(*r, outward_normal),
            final(self).normal == oriented_normal_spec(*r, outward_normal),
            final(self).p == old(self).p,
            final(self).t == old(self).t,
            final(self).mat == old(self).mat,
    {
        let d = r.direction().dot(outward_normal);
        self.front_face = d < 0;
        self.normal = if self.front_face {
            outward_normal
        } else {
            outward_normal.neg()
        };
    }
}

/// The closed set of primitives a scene can hold.
#[derive(Clone, Copy, PartialEq, Eq, Structural, Debug)]
pub enum Hittable {
    Sphere(Sphere),
    Cube(Cube),
}

/// Spec mirror of a single primitive's intersection test.
pub open spec fn hittable_hit_spec(h: Hittable, r: Ray, ray_t: Interval) -> Option<HitRecord> {
    match h {
        Hittable::Sphere(s) => sphere_hit_spec(s, r, ray_t),
        Hittable::Cube(c) => cube_hit_spec(c, r, ray_t),
    }
}

impl Hittable {
    /// The nearest intersection of the ray with this primitive strictly
    /// inside `ray_t`, if any.
    pub fn hit(&self, r: &Ray, ray_t: Interval) -> (res: Option<HitRecord>)
        ensures
            res == hittable_hit_spec(*self, *r, ray_t),
    {
        match self {
            Hittable::Sphere(s) => s.hit(r, ray_t),
            Hittable::Cube(c) => c.hit(r, ray_t),
        }
    }
}

/// A scene: an ordered sequence of primitives scanned linearly.
pub struct HittableList {
    pub objects: Vec<Hittable>,
}

/// Spec mirror of the aggregate scan: each primitive is queried with the
/// admissible range shrunk to the closest hit found so far, so the final
/// record is the globally nearest hit.
pub open spec fn list_hit_spec(objs: Seq<Hittable>, r: Ray, ray_t: Interval) -> Option<HitRecord>
    decreases objs.len(),
{
    if objs.len() == 0 {
        None
    } else {
        let prev = list_hit_spec(objs.drop_last(), r, ray_t);
        let closest = match prev {
            Option::None => ray_t.max,
            Option::Some(rec) => rec.t,
        };
        match hittable_hit_spec(objs.last(), r, Interval { min: ray_t.min, max: closest }) {
            Option::Some(rec2) => Some(rec2),
            Option::None => prev,
        }
    }
}

/// A successful hit parameter lies inside the queried range.
pub proof fn lemma_hittable_hit_t_bounds(h: Hittable, r: Ray, ray_t: Interval)
    ensures
        hittable_hit_spec(h, r, ray_t) matches Some(rec) ==> ray_t.min <= rec.t < ray_t.max,
{
    match h {
        Hittable::Sphere(s) => lemma_sphere_hit_t_bounds(s, r, ray_t),
        Hittable::Cube(c) => lemma_cube_hit_t_bounds(c, r, ray_t),
    }
}

/// Widening the admissible range does not change a successful hit.
pub proof fn lemma_hittable_hit_widen(h: Hittable, r: Ray, m: i64, mx1: i64, mx2: i64)
    requires
        mx1 <= mx2,
        hittable_hit_spec(h, r, Interval { min: m, max: mx1 }) is Some,
    ensures
        hittable_hit_spec(h, r, Interval { min: m, max: mx2 }) == hittable_hit_spec(
            h,
            r,
            Interval { min: m, max: mx1 },
        ),
{
    match h {
        Hittable::Sphere(s) => lemma_sphere_hit_widen(s, r, m, mx1, mx2),
        Hittable::Cube(c) => lemma_cube_hit_widen(c, r, m, mx1, mx2),
    }
}

/// Shrinking the admissible range down to anything still above the hit
/// parameter keeps the same hit.
pub proof fn lemma_hittable_hit_narrow(
    h: Hittable,
    r: Ray,
    m: i64,
    mx1: i64,
    mx2: i64,
    rec: HitRecord,
)
    requires
        mx2 <= mx1,
        hittable_hit_spec(h, r, Interval { min: m, max: mx1 }) == Some(rec),
        rec.t < mx2,
    ensures
        hittable_hit_spec(h, r, Interval { min: m, max: mx2 }) == Some(rec),
{
    match h {
        Hittable::Sphere(s) => lemma_sphere_hit_narrow(s, r, m, mx1, mx2, rec),
        Hittable::Cube(c) => lemma_cube_hit_narrow(c, r, m, mx1, mx2, rec),
    }
}

/// Law: the aggregate scan reports the globally nearest hit. Whenever
/// the scan returns a record, that record is some member's own hit over
/// the full queried range, and its parameter is the minimum over every
/// member that hits within that range; whenever any member hits, the
/// scan does not come back empty.
#[verifier::rlimit(100)]
pub proof fn lemma_list_hit_is_nearest(objs: Seq<Hittable>, r: Ray, ray_t: Interval)
    ensures
        list_hit_spec(objs, r, ray_t) matches Some(rec) ==> {
            &&& ray_t.min <= rec.t < ray_t.max
            &&& exists|k: int|
                0 <= k < objs.len() && #[trigger] hittable_hit_spec(objs[k], r, ray_t) == Some(rec)
        },
        forall|k: int|
            0 <= k < objs.len() ==> (#[trigger] hittable_hit_spec(objs[k], r, ray_t) matches Some(
                rk,
            ) ==> (list_hit_spec(objs, r, ray_t) matches Some(rec) && rec.t <= rk.t)),
    decreases objs.len(),
{
    if objs.len() == 0 {
        return ;
    }
    let prefix = objs.drop_last();
    let last = objs.last();
    lemma_list_hit_is_nearest(prefix, r, ray_t);
    let prev = list_hit_spec(prefix, r, ray_t);
    let closest = match prev {
        Option::None => ray_t.max,
        Option::Some(rec) => rec.t,
    };
    let narrowed = Interval { min: ray_t.min, max: closest };
    let res = list_hit_spec(objs, r, ray_t);

    assert(forall|k: int| 0 <= k < objs.len() - 1 ==> objs[k] == prefix[k]);

    match hittable_hit_spec(last, r, narrowed) {
        Option::Some(rec2) => {
            lemma_hittable_hit_t_bounds(last, r, narrowed);
            assert(rec2.t < closest);
            lemma_hittable_hit_widen(last, r, ray_t.min, closest, ray_t.max);
            assert(hittable_hit_spec(last, r, ray_t) == Some(rec2));
            assert(res == Some(rec2));
            // every earlier member that hits is no nearer than the old
            // best, which the new best strictly improves on
            assert forall|k: int|
                0 <= k < objs.len() implies (#[trigger] hittable_hit_spec(objs[k], r, ray_t)
                matches Some(rk) ==> rec2.t <= rk.t) by {
                if k < objs.len() - 1 {
                    assert(objs[k] == prefix[k]);
                } else {
                    assert(objs[k] == last);
                }
            }
        },
        Option::None => {
            assert(res == prev);
            // the last member cannot beat the old best: a nearer hit
            // over the full range would survive the narrowing
            assert forall|k: int|
                0 <= k < objs.len() implies (#[trigger] hittable_hit_spec(objs[k], r, ray_t)
                matches Some(rk) ==> (res matches Some(rec) && rec.t <= rk.t)) by {
                if k < objs.len() - 1 {
                    assert(objs[k] == prefix[k]);
                } else {
                    assert(objs[k] == last);
                    match hittable_hit_spec(last, r, ray_t) {
                        Option::Some(rlast) => {
                            match prev {
                                Option::None => {
                                    assert(narrowed == ray_t);
                                    assert(false);
                                },
                                Option::Some(rec_p) => {
                                    if rlast.t < rec_p.t {
                                        lemma_hittable_hit_narrow(
                                            last,
                                            r,
                                            ray_t.min,
                                            ray_t.max,
                                            closest,
                                            rlast,
                                        );
                                        assert(false);
                                    }
                                },
                            }
                        },
                        Option::None => {},
                    }
                }
            }
        },
    }
}

impl HittableList {
    /// An empty scene.
    pub fn new() -> (r: HittableList)
        ensures
            r.objects@ == Seq::<Hittable>::empty(),
    {
        HittableList { objects: Vec::new() }
    }

    /// Append a primitive to the scene.
    pub fn add(&mut self, object: Hittable)
        ensures
            final(self).objects@ == old(self).objects@.push(object),
    {
        self.objects.push(object);
    }

    /// The nearest hit of the ray over all primitives, strictly inside
    /// `ray_t`.
    pub fn hit(&self, r: &Ray, ray_t: Interval) -> (res: Option<HitRecord>)
        ensures
            res == list_hit_spec(self.objects@, *r, ray_t),
    {
        let mut best: Option<HitRecord> = None;
        let mut closest_so_far: i64 = ray_t.max;
        let n = self.objects.len();
        let mut i: usize = 0;
        while i < n
            invariant
                i <= n,
                n == self.objects.len(),
                best == list_hit_spec(self.objects@.take(i as int), *r, ray_t),
                closest_so_far == match best {
                    Option::None => ray_t.max,
                    Option::Some(rec) => rec.t,
                },
            decreases n - i,
        {
            let object = self.objects[i];
            match object.hit(r, Interval::new(ray_t.min, closest_so_far)) {
                Some(rec) => {
                    closest_so_far = rec.t;
                    best = Some(rec);
                },
                None => {},
            }
            proof {
                assert(self.objects@.take(i + 1 as int).drop_last() =~= self.objects@.take(
                    i as int,
                ));
                assert(self.objects@.take(i + 1 as int).last() == self.objects@[i as int]);
            }
            i = i + 1;
        }
        proof {
            assert(self.objects@.take(n as int) =~= self.objects@);
        }
        best
    }
}

} // verus!
