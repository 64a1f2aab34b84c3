//! Surface materials: diffuse, specular and refractive scattering.
//!
//! The material set is closed, so it is a tagged union dispatched by a
//! single match rather than a trait object.

use vstd::prelude::*;

use crate::fixed::{
    fp_add, fp_add_spec, fp_div, fp_div_spec, fp_min, fp_mul, fp_mul_spec, fp_neg, fp_neg_spec,
    fp_sqrt, fp_sqrt_spec, fp_sub, fp_sub_spec, FP_ONE,
};
use crate::hittable::HitRecord;
use crate::random::{random_fraction, random_unit_vector, unit_sample};
use crate::ray::Ray;
use crate::vec3::{
    dot_spec, near_zero_spec, reflect, reflect_spec, refract, refract_spec, unit_spec, vadd_spec,
    vscale_spec, Vec3,
};

verus! {

/// A diffuse surface that scatters cosine-weighted around the normal.
#[derive(Clone, Copy, PartialEq, Eq, Structural, Debug)]
pub struct Lambertian {
    pub albedo: Vec3,
}

/// A reflective surface with an optional fuzz perturbation.
#[derive(Clone, Copy, PartialEq, Eq, Structural, Debug)]
pub struct Metal {
    pub albedo: Vec3,
    pub fuzz: i64,
}

/// A clear refractive surface described by its refraction index.
#[derive(Clone, Copy, PartialEq, Eq, Structural, Debug)]
pub struct Dielectric {
    /// Refractive index in vacuum or air, or the ratio of the material's
    /// refractive index over the refractive index of the enclosing media.
    pub refraction_index: i64,
}

/// The closed set of surface materials.
#[derive(Clone, Copy, PartialEq, Eq, Structural, Debug)]
pub enum Material {
    Lambertian(Lambertian),
    Metal(Metal),
    Dielectric(Dielectric),
}

/// What a successful scattering event hands back: a color filter and the
/// next ray to follow.
#[derive(Clone, Copy, PartialEq, Eq, Structural, Debug)]
pub struct ScatterResult {
    pub attenuation: Vec3,
    pub scattered: Ray,
}

impl Lambertian {
    /// A diffuse material with the given albedo.
    pub fn new(albedo: Vec3) -> (r: Lambertian)
        ensures
            r == (Lambertian { albedo }),
    {
        Lambertian { albedo }
    }
}

impl Metal {
    /// A reflective material with the given albedo and fuzz factor.
    pub fn new(albedo: Vec3, fuzz: i64) -> (r: Metal)
        ensures
            r == (Metal { albedo, fuzz }),
    {
        Metal { albedo, fuzz }
    }
}

impl Dielectric {
    /// A refractive material with the given refraction index.
    pub fn new(refraction_index: i64) -> (r: Dielectric)
        ensures
            r == (Dielectric { refraction_index }),
    {
        Dielectric { refraction_index }
    }
}

/// Spec mirror of diffuse scattering given the drawn unit-sphere sample
/// `u`: the scattered direction is `normal + u`, falling back to the
/// normal itself when that sum degenerates to zero.
pub open spec fn lambertian_scatter_spec(m: Lambertian, rec: HitRecord, u: Vec3) -> Option<
    ScatterResult,
> {
    let sum = vadd_spec(rec.normal, u);
    let direction = if near_zero_spec(sum) {
        rec.normal
    } else {
        sum
    };
    Some(
        ScatterResult {
            attenuation: m.albedo,
            scattered: Ray { orig: rec.p, dir: direction },
        },
    )
}

/// The fuzzed specular direction: the normalized mirror reflection
/// perturbed by `fuzz` times the drawn unit-sphere sample `u`.
pub open spec fn metal_fuzzed_dir(m: Metal, r_in: Ray, rec: HitRecord, u: Vec3) -> Vec3 {
    vadd_spec(unit_spec(reflect_spec(r_in.dir, rec.normal)), vscale_spec(u, m.fuzz))
}

/// Spec mirror of specular scattering given the drawn sample `u`: the
/// ray is absorbed exactly when the fuzzed reflection leaves the
/// normal's hemisphere.
pub open spec fn metal_scatter_spec(m: Metal, r_in: Ray, rec: HitRecord, u: Vec3) -> Option<
    ScatterResult,
> {
    let direction = metal_fuzzed_dir(m, r_in, rec, u);
    if dot_spec(direction, rec.normal) > 0 {
        Some(
            ScatterResult {
                attenuation: m.albedo,
                scattered: Ray { orig: rec.p, dir: direction },
            },
        )
    } else {
        None
    }
}

/// Spec mirror of the Schlick reflectance approximation:
/// `r0 + (1 - r0) (1 - cos)^5` with `r0 = ((1 - ri) / (1 + ri))^2`.
pub open spec fn reflectance_spec(cosine: i64, refraction_index: i64) -> i64 {
    let r0_base = fp_div_spec(
        fp_sub_spec(FP_ONE, refraction_index),
        fp_add_spec(FP_ONE, refraction_index),
    );
    let r0 = fp_mul_spec(r0_base, r0_base);
    let x = fp_sub_spec(FP_ONE, cosine);
    let x2 = fp_mul_spec(x, x);
    let x4 = fp_mul_spec(x2, x2);
    let x5 = fp_mul_spec(x4, x);
    fp_add_spec(r0, fp_mul_spec(fp_sub_spec(FP_ONE, r0), x5))
}

/// The effective refractive ratio at a hit: inverted when the ray
/// arrives from outside the surface.
pub open spec fn dielectric_ri_spec(m: Dielectric, rec: HitRecord) -> i64 {
    if rec.front_face {
        fp_div_spec(FP_ONE, m.refraction_index)
    } else {
        m.refraction_index
    }
}

/// The cosine of the angle between the unit incoming direction and the
/// oriented normal: `min(1, -(unitDir . normal))`, capped after
/// negation.
pub open spec fn dielectric_cos_spec(r_in: Ray, rec: HitRecord) -> i64 {
    vstd::math::min(
        FP_ONE as int,
        fp_neg_spec(dot_spec(unit_spec(r_in.dir), rec.normal)) as int,
    ) as i64
}

/// The matching sine, from `sin^2 + cos^2 = 1`.
pub open spec fn dielectric_sin_spec(r_in: Ray, rec: HitRecord) -> i64 {
    let cos_theta = dielectric_cos_spec(r_in, rec);
    fp_sqrt_spec(fp_sub_spec(FP_ONE, fp_mul_spec(cos_theta, cos_theta)))
}

/// Snell's law has no solution: the ray must reflect internally.
pub open spec fn dielectric_cannot_refract(m: Dielectric, r_in: Ray, rec: HitRecord) -> bool {
    fp_mul_spec(dielectric_ri_spec(m, rec), dielectric_sin_spec(r_in, rec)) > FP_ONE
}

/// Spec mirror of refractive scattering given the drawn reflectance
/// threshold `q`: reflect on total internal reflection or when the
/// Schlick reflectance exceeds `q`, refract otherwise; the attenuation
/// is always white and the ray is never absorbed.
pub open spec fn dielectric_scatter_spec(m: Dielectric, r_in: Ray, rec: HitRecord, q: i64) -> Option<
    ScatterResult,
> {
    let ri = dielectric_ri_spec(m, rec);
    let unit_direction = unit_spec(r_in.dir);
    let cos_theta = dielectric_cos_spec(r_in, rec);
    let direction = if dielectric_cannot_refract(m, r_in, rec) || reflectance_spec(cos_theta, ri)
        > q {
        reflect_spec(unit_direction, rec.normal)
    } else {
        refract_spec(unit_direction, rec.normal, ri)
    };
    Some(
        ScatterResult {
            attenuation: Vec3 { x: FP_ONE, y: FP_ONE, z: FP_ONE },
            scattered: Ray { orig: rec.p, dir: direction },
        },
    )
}

/// What `Material::scatter` promises of its result: for each material
/// kind the result equals the deterministic scattering of some
/// admissible random draw.
pub open spec fn scatter_post(m: Material, r_in: Ray, rec: HitRecord, res: Option<
    ScatterResult,
>) -> bool {
    match m {
        Material::Lambertian(l) => exists|u: Vec3|
            unit_sample(u) && res == lambertian_scatter_spec(l, rec, u),
        Material::Metal(mt) => exists|u: Vec3|
            unit_sample(u) && res == metal_scatter_spec(mt, r_in, rec, u),
        Material::Dielectric(d) => exists|q: i64|
            0 <= q < FP_ONE && res == dielectric_scatter_spec(d, r_in, rec, q),
    }
}

impl Lambertian {
    /// Diffuse scattering with an explicit unit-sphere sample `u`.
    pub fn scatter_with(&self, rec: &HitRecord, u: Vec3) -> (res: Option<ScatterResult>)
        ensures
            res == lambertian_scatter_spec(*self, *rec, u),
            res.is_some(),
    {
        let mut scatter_direction = rec.normal.add(u);

        if scatter_direction.near_zero() {
            scatter_direction = rec.normal;
        }

        Some(
            ScatterResult {
                attenuation: self.albedo,
                scattered: Ray::new(rec.p, scatter_direction),
            },
        )
    }
}

impl Metal {
    /// Specular scattering with an explicit unit-sphere sample `u`.
    pub fn scatter_with(&self, r_in: &Ray, rec: &HitRecord, u: Vec3) -> (res: Option<
        ScatterResult,
    >)
        ensures
            res == metal_scatter_spec(*self, *r_in, *rec, u),
            res.is_none() <==> dot_spec(metal_fuzzed_dir(*self, *r_in, *rec, u), rec.normal) <= 0,
    {
        let reflected = reflect(r_in.direction(), rec.normal);
        let direction = reflected.unit_vector().add(u.scale(self.fuzz));

        if direction.dot(rec.normal) > 0 {
            Some(
                ScatterResult {
                    attenuation: self.albedo,
                    scattered: Ray::new(rec.p, direction),
                },
            )
        } else {
            None
        }
    }
}

impl Dielectric {
    /// The Schlick approximation for reflectance.
    fn reflectance(cosine: i64, refraction_index: i64) -> (r: i64)
        ensures
            r == reflectance_spec(cosine, refraction_index),
    {
        let r0_base = fp_div(fp_sub(FP_ONE, refraction_index), fp_add(FP_ONE, refraction_index));
        let r0 = fp_mul(r0_base, r0_base);
        let x = fp_sub(FP_ONE, cosine);
        let x2 = fp_mul(x, x);
        let x4 = fp_mul(x2, x2);
        let x5 = fp_mul(x4, x);
        fp_add(r0, fp_mul(fp_sub(FP_ONE, r0), x5))
    }

    /// Refractive scattering with an explicit reflectance threshold `q`.
    pub fn scatter_with(&self, r_in: &Ray, rec: &HitRecord, q: i64) -> (res: Option<ScatterResult>)
        ensures
            res == dielectric_scatter_spec(*self, *r_in, *rec, q),
            res.is_some(),
    {
        let ri = if rec.front_face {
            fp_div(FP_ONE, self.refraction_index)
        } else {
            self.refraction_index
        };

        let unit_direction = r_in.direction().unit_vector();
        let cos_theta = fp_min(FP_ONE, fp_neg(unit_direction.dot(rec.normal)));
        let sin_theta = fp_sqrt(fp_sub(FP_ONE, fp_mul(cos_theta, cos_theta)));

        let cannot_refract = fp_mul(ri, sin_theta) > FP_ONE;
        let direction = if cannot_refract || Dielectric::reflectance(cos_theta, ri) > q {
            reflect(unit_direction, rec.normal)
        } else {
            refract(unit_direction, rec.normal, ri)
        };

        Some(
            ScatterResult {
                attenuation: Vec3::new(FP_ONE, FP_ONE, FP_ONE),
                scattered: Ray::new(rec.p, direction),
            },
        )
    }
}

impl Material {
    /// Scatter an incoming ray at a hit: the scattered ray and color
    /// filter of the material's deterministic rule applied to a freshly
    /// drawn random sample, or absorption.
    pub fn scatter(&self, r_in: &Ray, rec: &HitRecord) -> (res: Option<ScatterResult>)
        ensures
            scatter_post(*self, *r_in, *rec, res),
            self matches Material::Lambertian(_) ==> res.is_some(),
            self matches Material::Dielectric(_) ==> res.is_some(),
    {
        match self {
            Material::Lambertian(l) => {
                let u = random_unit_vector();
                let res = l.scatter_with(rec, u);
                proof {
                    assert(unit_sample(u) && res == lambertian_scatter_spec(*l, *rec, u));
                }
                res
            },
            Material::Metal(mt) => {
                let u = random_unit_vector();
                let res = mt.scatter_with(r_in, rec, u);
                proof {
                    assert(unit_sample(u) && res == metal_scatter_spec(*mt, *r_in, *rec, u));
                }
                res
            },
            Material::Dielectric(d) => {
                let q = random_fraction();
                let res = d.scatter_with(r_in, rec, q);
                proof {
                    assert(0 <= q < FP_ONE && res == dielectric_scatter_spec(*d, *r_in, *rec, q));
                }
                res
            },
        }
    }
}

/// Law: a diffuse surface never absorbs — for every hit and every drawn
/// sample, Lambertian scattering returns a scattered ray.
pub proof fn lemma_lambertian_always_scatters(m: Lambertian, rec: HitRecord, u: Vec3)
    ensures
        lambertian_scatter_spec(m, rec, u).is_some(),
{
}

/// Law: a specular surface absorbs exactly when the fuzzed reflection
/// crosses into the hemisphere opposite the oriented normal.
pub proof fn lemma_metal_absorbs_iff(m: Metal, r_in: Ray, rec: HitRecord, u: Vec3)
    ensures
        metal_scatter_spec(m, r_in, rec, u).is_none() <==> dot_spec(
            metal_fuzzed_dir(m, r_in, rec, u),
            rec.normal,
        ) <= 0,
{
}

/// Law: under total internal reflection, a refractive surface reflects
/// whatever the drawn reflectance threshold was.
pub proof fn lemma_dielectric_total_internal_reflection(
    m: Dielectric,
    r_in: Ray,
    rec: HitRecord,
    q: i64,
)
    requires
        dielectric_cannot_refract(m, r_in, rec),
    ensures
        dielectric_scatter_spec(m, r_in, rec, q) matches Some(s) && s.scattered.dir
            == reflect_spec(unit_spec(r_in.dir), rec.normal),
{
}

} // verus!
