use path_tracer::fixed::{FP_HALF, FP_ONE};
use path_tracer::hittable::HitRecord;
use path_tracer::material::{Dielectric, Lambertian, Material, Metal};
use path_tracer::ray::Ray;
use path_tracer::vec3::{reflect, Vec3};

fn head_on_record(mat: Material) -> HitRecord {
    let mut rec = HitRecord::new(Vec3::new(0, 0, -FP_ONE), FP_ONE, mat);
    let r = Ray::new(Vec3::new(0, 0, 0), Vec3::new(0, 0, -FP_ONE));
    rec.set_face_normal(&r, Vec3::new(0, 0, FP_ONE));
    rec
}

#[test]
fn set_face_normal_orients_against_the_ray() {
    let mut rec = HitRecord::new(Vec3::new(0, 0, 0), 0, gray_material());
    let r = Ray::new(Vec3::new(0, 0, 0), Vec3::new(0, 0, -FP_ONE));
    rec.set_face_normal(&r, Vec3::new(0, 0, FP_ONE));
    assert!(rec.front_face);
    assert_eq!(rec.normal, Vec3::new(0, 0, FP_ONE));

    rec.set_face_normal(&r, Vec3::new(0, 0, -FP_ONE));
    assert!(!rec.front_face);
    assert_eq!(rec.normal, Vec3::new(0, 0, FP_ONE));
}

fn gray_material() -> Material {
    Material::Lambertian(Lambertian::new(Vec3::new(FP_HALF, FP_HALF, FP_HALF)))
}

#[test]
fn lambertian_scatters_along_normal_plus_sample() {
    let albedo = Vec3::new(FP_HALF, FP_HALF, FP_HALF);
    let l = Lambertian::new(albedo);
    let rec = head_on_record(Material::Lambertian(l));
    let u = Vec3::new(FP_ONE, 0, 0);
    let s = l.scatter_with(&rec, u).expect("diffuse surfaces always scatter");
    assert_eq!(s.attenuation, albedo);
    assert_eq!(s.scattered.origin(), rec.p);
    assert_eq!(s.scattered.direction(), Vec3::new(FP_ONE, 0, FP_ONE));
}

#[test]
fn lambertian_degenerate_sum_falls_back_to_the_normal() {
    let l = Lambertian::new(Vec3::new(FP_HALF, FP_HALF, FP_HALF));
    let rec = head_on_record(Material::Lambertian(l));
    // a sample exactly opposite the normal cancels it out
    let u = Vec3::new(0, 0, -FP_ONE);
    let s = l.scatter_with(&rec, u).expect("diffuse surfaces always scatter");
    assert_eq!(s.scattered.direction(), rec.normal);
}

#[test]
fn lambertian_never_absorbs() {
    let l = Lambertian::new(Vec3::new(FP_HALF, FP_HALF, FP_HALF));
    let rec = head_on_record(Material::Lambertian(l));
    let r = Ray::new(Vec3::new(0, 0, 0), Vec3::new(0, 0, -FP_ONE));
    for _ in 0..32 {
        assert!(Material::Lambertian(l).scatter(&r, &rec).is_some());
    }
}

#[test]
fn metal_reflects_when_the_sample_keeps_the_hemisphere() {
    let albedo = Vec3::new(FP_ONE, FP_ONE, FP_ONE);
    let m = Metal::new(albedo, 0);
    let rec = head_on_record(Material::Metal(m));
    let r = Ray::new(Vec3::new(0, 0, 0), Vec3::new(0, 0, -FP_ONE));
    let s = m.scatter_with(&r, &rec, Vec3::new(0, 0, 0)).expect("a clean head-on reflection");
    assert_eq!(s.attenuation, albedo);
    assert_eq!(s.scattered.direction(), Vec3::new(0, 0, FP_ONE));
}

#[test]
fn metal_absorbs_when_the_fuzz_crosses_the_surface() {
    // fuzz 2 with a sample straight against the reflection drives the
    // direction into the opposite hemisphere: absorbed
    let m = Metal::new(Vec3::new(FP_ONE, FP_ONE, FP_ONE), 2 * FP_ONE);
    let rec = head_on_record(Material::Metal(m));
    let r = Ray::new(Vec3::new(0, 0, 0), Vec3::new(0, 0, -FP_ONE));
    assert!(m.scatter_with(&r, &rec, Vec3::new(0, 0, -FP_ONE)).is_none());
}

#[test]
fn dielectric_reflects_under_total_internal_reflection() {
    // leaving a dense medium (back face, ratio 1.5) at grazing
    // incidence: ri * sin(theta) > 1, so the ray must reflect even with
    // the reflectance draw at its most permissive
    let d = Dielectric::new(FP_ONE + FP_HALF);
    let mut rec = HitRecord::new(Vec3::new(0, 0, 0), FP_ONE, Material::Dielectric(d));
    let incoming = Ray::new(
        Vec3::new(-4 * FP_ONE, 0, 3 * FP_ONE),
        Vec3::new(4 * FP_ONE, 0, -3 * FP_ONE),
    );
    // the geometric outward normal points along -z (hit from inside)
    rec.set_face_normal(&incoming, Vec3::new(0, 0, -FP_ONE));
    assert!(!rec.front_face);

    let unit = incoming.direction().unit_vector();
    let expected = reflect(unit, rec.normal);
    let s = d.scatter_with(&incoming, &rec, FP_ONE - 1).expect("dielectrics always scatter");
    assert_eq!(s.scattered.direction(), expected);
    assert_eq!(s.attenuation, Vec3::new(FP_ONE, FP_ONE, FP_ONE));
}

#[test]
fn dielectric_refracts_head_on() {
    // head-on entry never reflects totally; with the draw above the
    // Schlick value the ray refracts straight through
    let d = Dielectric::new(FP_ONE + FP_HALF);
    let rec = head_on_record(Material::Dielectric(d));
    let r = Ray::new(Vec3::new(0, 0, 0), Vec3::new(0, 0, -FP_ONE));
    let s = d.scatter_with(&r, &rec, FP_ONE - 1).expect("dielectrics always scatter");
    // straight down the axis, entering the denser medium
    assert!(s.scattered.direction().z < 0);
    assert_eq!(s.scattered.direction().x, 0);
    assert_eq!(s.scattered.direction().y, 0);
}

#[test]
fn fuzzless_metal_scatter_is_deterministic() {
    // with fuzz zero the drawn sample is scaled away, so even the
    // randomized entry point must return the exact mirror reflection
    let m = Metal::new(Vec3::new(FP_ONE, FP_ONE, FP_ONE), 0);
    let rec = head_on_record(Material::Metal(m));
    let r = Ray::new(Vec3::new(0, 0, 0), Vec3::new(0, 0, -FP_ONE));
    for _ in 0..32 {
        let s = Material::Metal(m).scatter(&r, &rec).expect("a clean head-on reflection");
        assert_eq!(s.scattered.direction(), Vec3::new(0, 0, FP_ONE));
    }
}

#[test]
fn dielectric_never_absorbs() {
    let d = Dielectric::new(FP_ONE + FP_HALF);
    let rec = head_on_record(Material::Dielectric(d));
    let r = Ray::new(Vec3::new(0, 0, 0), Vec3::new(0, 0, -FP_ONE));
    for _ in 0..32 {
        assert!(Material::Dielectric(d).scatter(&r, &rec).is_some());
    }
}
