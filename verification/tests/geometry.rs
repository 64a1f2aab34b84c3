use path_tracer::fixed::{FP_HALF, FP_ONE, FP_TWO};
use path_tracer::hittable::{HitRecord, Hittable, HittableList};
use path_tracer::interval::Interval;
use path_tracer::material::{Lambertian, Material};
use path_tracer::ray::Ray;
use path_tracer::sphere::Sphere;
use path_tracer::cube::Cube;
use path_tracer::vec3::{reflect, refract, Vec3};

fn gray() -> Material {
    Material::Lambertian(Lambertian::new(Vec3::new(FP_HALF, FP_HALF, FP_HALF)))
}

fn trace_range() -> Interval {
    // about 0.001 up to the top of the fixed-point range
    Interval::new(66, i64::MAX)
}

#[test]
fn interval_surrounds_is_strict() {
    let i = Interval::new(0, FP_ONE);
    assert!(i.surrounds(1));
    assert!(!i.surrounds(0));
    assert!(!i.surrounds(FP_ONE));
    assert_eq!(i.clamp(-5), 0);
    assert_eq!(i.clamp(FP_ONE + 5), FP_ONE);
    assert_eq!(i.clamp(17), 17);
}

#[test]
fn vector_products_match_hand_values() {
    let a = Vec3::new(FP_ONE, 2 * FP_ONE, 3 * FP_ONE);
    let b = Vec3::new(4 * FP_ONE, 5 * FP_ONE, 6 * FP_ONE);
    assert_eq!(a.dot(b), 32 * FP_ONE);
    assert_eq!(a.cross(b), Vec3::new(-3 * FP_ONE, 6 * FP_ONE, -3 * FP_ONE));
    assert_eq!(a.length_squared(), 14 * FP_ONE);
    let u = Vec3::new(3 * FP_ONE, 4 * FP_ONE, 0).unit_vector();
    // (3, 4, 0) / 5 == (0.6, 0.8, 0.0), truncated toward zero
    assert_eq!(u, Vec3::new(39321, 52428, 0));
}

#[test]
fn reflect_bounces_across_the_normal() {
    let v = Vec3::new(FP_ONE, -FP_ONE, 0);
    let n = Vec3::new(0, FP_ONE, 0);
    assert_eq!(reflect(v, n), Vec3::new(FP_ONE, FP_ONE, 0));
}

#[test]
fn refract_straight_through_is_unchanged() {
    // head-on incidence with ratio 1 passes straight through
    let uv = Vec3::new(0, 0, -FP_ONE);
    let n = Vec3::new(0, 0, FP_ONE);
    assert_eq!(refract(uv, n, FP_ONE), Vec3::new(0, 0, -FP_ONE));
}

#[test]
fn sphere_head_on_hit_reports_nearest_root() {
    // ray from the origin toward (0,0,-1), sphere at (0,0,-5) radius 1:
    // hit at t = 4 with outward normal (0,0,1), front face
    let s = Sphere::new(Vec3::new(0, 0, -5 * FP_ONE), FP_ONE, gray());
    let r = Ray::new(Vec3::new(0, 0, 0), Vec3::new(0, 0, -FP_ONE));
    let rec: HitRecord = s.hit(&r, trace_range()).expect("the ray aims at the sphere");
    assert_eq!(rec.t, 4 * FP_ONE);
    assert_eq!(rec.normal, Vec3::new(0, 0, FP_ONE));
    assert!(rec.front_face);
    assert_eq!(rec.p, Vec3::new(0, 0, -4 * FP_ONE));
}

#[test]
fn sphere_behind_the_ray_is_missed() {
    let s = Sphere::new(Vec3::new(0, 0, 5 * FP_ONE), FP_ONE, gray());
    let r = Ray::new(Vec3::new(0, 0, 0), Vec3::new(0, 0, -FP_ONE));
    assert!(s.hit(&r, trace_range()).is_none());
}

#[test]
fn ray_leaving_the_surface_reports_no_hit() {
    // the origin sits on the sphere's surface and the direction points
    // outward: the open range guards against self-intersection
    let s = Sphere::new(Vec3::new(0, 0, -5 * FP_ONE), FP_ONE, gray());
    let on_surface = Vec3::new(0, 0, -4 * FP_ONE);
    let outward = Vec3::new(0, 0, FP_ONE);
    let r = Ray::new(on_surface, outward);
    assert!(s.hit(&r, trace_range()).is_none());
}

#[test]
fn cube_slab_hit_reports_entry_face() {
    // ray from (0,0,5) toward (0,0,-1), cube at the origin with side 2:
    // hit at t = 4 with normal (0,0,1)
    let c = Cube::new(Vec3::new(0, 0, 0), 2 * FP_ONE, gray());
    let r = Ray::new(Vec3::new(0, 0, 5 * FP_ONE), Vec3::new(0, 0, -FP_ONE));
    let rec = c.hit(&r, trace_range()).expect("the ray aims at the cube");
    assert_eq!(rec.t, 4 * FP_ONE);
    assert_eq!(rec.normal, Vec3::new(0, 0, FP_ONE));
    assert!(rec.front_face);
}

#[test]
fn cube_side_face_normal_tracks_the_hit_axis() {
    let c = Cube::new(Vec3::new(0, 0, 0), 2 * FP_ONE, gray());
    let r = Ray::new(Vec3::new(5 * FP_ONE, 0, 0), Vec3::new(-FP_ONE, 0, 0));
    let rec = c.hit(&r, trace_range()).expect("the ray aims at the cube");
    assert_eq!(rec.t, 4 * FP_ONE);
    assert_eq!(rec.normal, Vec3::new(FP_ONE, 0, 0));
}

#[test]
fn cube_parallel_ray_outside_the_slab_misses() {
    let c = Cube::new(Vec3::new(0, 0, 0), 2 * FP_ONE, gray());
    let r = Ray::new(Vec3::new(5 * FP_ONE, 0, 5 * FP_ONE), Vec3::new(0, 0, -FP_ONE));
    assert!(c.hit(&r, trace_range()).is_none());
}

#[test]
fn scene_reports_the_nearest_of_overlapping_hits() {
    // two spheres on the same axis, overlapping; the scan must report
    // the smaller of the two individual hit parameters, in either
    // insertion order
    let near = Hittable::Sphere(Sphere::new(Vec3::new(0, 0, -3 * FP_ONE), FP_ONE, gray()));
    let far = Hittable::Sphere(Sphere::new(Vec3::new(0, 0, -4 * FP_ONE), 2 * FP_ONE, gray()));
    let r = Ray::new(Vec3::new(0, 0, 0), Vec3::new(0, 0, -FP_ONE));

    let t_near = match near.hit(&r, trace_range()) {
        Some(rec) => rec.t,
        None => panic!("the near sphere is on the axis"),
    };
    let t_far = match far.hit(&r, trace_range()) {
        Some(rec) => rec.t,
        None => panic!("the far sphere is on the axis"),
    };
    let t_min = t_near.min(t_far);

    let mut world = HittableList::new();
    world.add(near);
    world.add(far);
    let rec = world.hit(&r, trace_range()).expect("both spheres are on the axis");
    assert_eq!(rec.t, t_min);

    let mut reversed = HittableList::new();
    reversed.add(far);
    reversed.add(near);
    let rec2 = reversed.hit(&r, trace_range()).expect("both spheres are on the axis");
    assert_eq!(rec2.t, t_min);
}

#[test]
fn empty_scene_never_hits() {
    let world = HittableList::new();
    let r = Ray::new(Vec3::new(0, 0, 0), Vec3::new(0, 0, -FP_ONE));
    assert!(world.hit(&r, trace_range()).is_none());
}

#[test]
fn ray_at_walks_the_parameter() {
    let r = Ray::new(Vec3::new(FP_ONE, 0, 0), Vec3::new(0, FP_TWO, 0));
    assert_eq!(r.at(FP_ONE), Vec3::new(FP_ONE, FP_TWO, 0));
    assert_eq!(r.at(FP_HALF), Vec3::new(FP_ONE, FP_ONE, 0));
    assert_eq!(r.origin(), Vec3::new(FP_ONE, 0, 0));
    assert_eq!(r.direction(), Vec3::new(0, FP_TWO, 0));
}
