//! Three-component fixed-point vectors used for points, directions and
//! colors, with the reflection and refraction helpers of the scattering
//! model.

use vstd::prelude::*;

use crate::fixed::{
    fp_abs, fp_abs_spec, fp_add, fp_add_spec, fp_div, fp_div_spec, fp_min, fp_mul, fp_mul_spec,
    fp_neg, fp_neg_spec, fp_sqrt, fp_sqrt_spec, fp_sub, fp_sub_spec, FP_ONE, FP_TWO,
};

verus! {

/// A vector of three fixed-point components.
#[derive(Clone, Copy, PartialEq, Eq, Structural, Debug)]
pub struct Vec3 {
    pub x: i64,
    pub y: i64,
    pub z: i64,
}

/// Spec mirror of component-wise vector addition.
pub open spec fn vadd_spec(a: Vec3, b: Vec3) -> Vec3 {
    Vec3 { x: fp_add_spec(a.x, b.x), y: fp_add_spec(a.y, b.y), z: fp_add_spec(a.z, b.z) }
}

/// Spec mirror of component-wise vector subtraction.
pub open spec fn vsub_spec(a: Vec3, b: Vec3) -> Vec3 {
    Vec3 { x: fp_sub_spec(a.x, b.x), y: fp_sub_spec(a.y, b.y), z: fp_sub_spec(a.z, b.z) }
}

/// Spec mirror of vector negation.
pub open spec fn vneg_spec(a: Vec3) -> Vec3 {
    Vec3 { x: fp_neg_spec(a.x), y: fp_neg_spec(a.y), z: fp_neg_spec(a.z) }
}

/// Spec mirror of scaling a vector by a fixed-point factor.
pub open spec fn vscale_spec(a: Vec3, t: i64) -> Vec3 {
    Vec3 { x: fp_mul_spec(a.x, t), y: fp_mul_spec(a.y, t), z: fp_mul_spec(a.z, t) }
}

/// Spec mirror of the component-wise (Hadamard) product used for color
/// attenuation.
pub open spec fn vcomp_mul_spec(a: Vec3, b: Vec3) -> Vec3 {
    Vec3 { x: fp_mul_spec(a.x, b.x), y: fp_mul_spec(a.y, b.y), z: fp_mul_spec(a.z, b.z) }
}

/// Spec mirror of the dot product.
pub open spec fn dot_spec(a: Vec3, b: Vec3) -> i64 {
    fp_add_spec(
        fp_add_spec(fp_mul_spec(a.x, b.x), fp_mul_spec(a.y, b.y)),
        fp_mul_spec(a.z, b.z),
    )
}

/// Spec mirror of the cross product.
pub open spec fn cross_spec(a: Vec3, b: Vec3) -> Vec3 {
    Vec3 {
        x: fp_sub_spec(fp_mul_spec(a.y, b.z), fp_mul_spec(a.z, b.y)),
        y: fp_sub_spec(fp_mul_spec(a.z, b.x), fp_mul_spec(a.x, b.z)),
        z: fp_sub_spec(fp_mul_spec(a.x, b.y), fp_mul_spec(a.y, b.x)),
    }
}

/// Spec mirror of the squared length.
pub open spec fn length_sq_spec(a: Vec3) -> i64 {
    dot_spec(a, a)
}

/// Spec mirror of the length.
pub open spec fn length_spec(a: Vec3) -> i64 {
    fp_sqrt_spec(length_sq_spec(a))
}

/// Spec mirror of normalization: each component divided by the length.
/// A zero-length vector saturates component-wise, keeping the operation
/// total.
pub open spec fn unit_spec(a: Vec3) -> Vec3 {
    let len = length_spec(a);
    Vec3 { x: fp_div_spec(a.x, len), y: fp_div_spec(a.y, len), z: fp_div_spec(a.z, len) }
}

/// Spec mirror of dividing a vector by a fixed-point scalar.
pub open spec fn vdiv_scalar_spec(a: Vec3, t: i64) -> Vec3 {
    Vec3 { x: fp_div_spec(a.x, t), y: fp_div_spec(a.y, t), z: fp_div_spec(a.z, t) }
}

/// A vector counts as near zero when every component is exactly zero: the
/// fixed-point quantum is far coarser than the tolerance a floating-point
/// tracer would use here.
pub open spec fn near_zero_spec(a: Vec3) -> bool {
    a.x == 0 && a.y == 0 && a.z == 0
}

/// Spec mirror of mirror reflection: `v - 2 (v . n) n`.
pub open spec fn reflect_spec(v: Vec3, n: Vec3) -> Vec3 {
    vsub_spec(v, vscale_spec(n, fp_mul_spec(FP_TWO, dot_spec(v, n))))
}

/// Spec mirror of Snell refraction, split into the perpendicular and
/// parallel components. The incidence cosine is `min(1, -(uv . n))`,
/// capped after negation.
pub open spec fn refract_spec(uv: Vec3, n: Vec3, etai_over_etat: i64) -> Vec3 {
    let cos_theta = vstd::math::min(FP_ONE as int, fp_neg_spec(dot_spec(uv, n)) as int) as i64;
    let r_out_perp = vscale_spec(vadd_spec(uv, vscale_spec(n, cos_theta)), etai_over_etat);
    let r_out_parallel = vscale_spec(
        n,
        fp_neg_spec(fp_sqrt_spec(fp_abs_spec(fp_sub_spec(FP_ONE, length_sq_spec(r_out_perp))))),
    );
    vadd_spec(r_out_perp, r_out_parallel)
}

impl Vec3 {
    /// Build a vector from three fixed-point components.
    pub fn new(x: i64, y: i64, z: i64) -> (r: Vec3)
        ensures
            r == (Vec3 { x, y, z }),
    {
        Vec3 { x, y, z }
    }

    /// The zero vector.
    pub fn zero() -> (r: Vec3)
        ensures
            r == (Vec3 { x: 0i64, y: 0i64, z: 0i64 }),
    {
        Vec3 { x: 0, y: 0, z: 0 }
    }

    /// Component-wise addition.
    pub fn add(self, b: Vec3) -> (r: Vec3)
        ensures
            r == vadd_spec(self, b),
    {
        Vec3 { x: fp_add(self.x, b.x), y: fp_add(self.y, b.y), z: fp_add(self.z, b.z) }
    }

    /// Component-wise subtraction.
    pub fn sub(self, b: Vec3) -> (r: Vec3)
        ensures
            r == vsub_spec(self, b),
    {
        Vec3 { x: fp_sub(self.x, b.x), y: fp_sub(self.y, b.y), z: fp_sub(self.z, b.z) }
    }

    /// Negation.
    pub fn neg(self) -> (r: Vec3)
        ensures
            r == vneg_spec(self),
    {
        Vec3 { x: fp_neg(self.x), y: fp_neg(self.y), z: fp_neg(self.z) }
    }

    /// Scaling by a fixed-point factor.
    pub fn scale(self, t: i64) -> (r: Vec3)
        ensures
            r == vscale_spec(self, t),
    {
        Vec3 { x: fp_mul(self.x, t), y: fp_mul(self.y, t), z: fp_mul(self.z, t) }
    }

    /// Component-wise product, the attenuation filter of the color
    /// pipeline.
    pub fn comp_mul(self, b: Vec3) -> (r: Vec3)
        ensures
            r == vcomp_mul_spec(self, b),
    {
        Vec3 { x: fp_mul(self.x, b.x), y: fp_mul(self.y, b.y), z: fp_mul(self.z, b.z) }
    }

    /// Division by a fixed-point scalar.
    pub fn div_scalar(self, t: i64) -> (r: Vec3)
        ensures
            r == vdiv_scalar_spec(self, t),
    {
        Vec3 { x: fp_div(self.x, t), y: fp_div(self.y, t), z: fp_div(self.z, t) }
    }

    /// Dot product.
    pub fn dot(self, b: Vec3) -> (r: i64)
        ensures
            r == dot_spec(self, b),
    {
        fp_add(fp_add(fp_mul(self.x, b.x), fp_mul(self.y, b.y)), fp_mul(self.z, b.z))
    }

    /// Cross product.
    pub fn cross(self, b: Vec3) -> (r: Vec3)
        ensures
            r == cross_spec(self, b),
    {
        Vec3 {
            x: fp_sub(fp_mul(self.y, b.z), fp_mul(self.z, b.y)),
            y: fp_sub(fp_mul(self.z, b.x), fp_mul(self.x, b.z)),
            z: fp_sub(fp_mul(self.x, b.y), fp_mul(self.y, b.x)),
        }
    }

    /// Squared length.
    pub fn length_squared(self) -> (r: i64)
        ensures
            r == length_sq_spec(self),
    {
        self.dot(self)
    }

    /// Length.
    pub fn length(self) -> (r: i64)
        ensures
            r == length_spec(self),
    {
        fp_sqrt(self.length_squared())
    }

    /// Normalization to (approximately) unit length.
    pub fn unit_vector(self) -> (r: Vec3)
        ensures
            r == unit_spec(self),
    {
        let len = self.length();
        Vec3 { x: fp_div(self.x, len), y: fp_div(self.y, len), z: fp_div(self.z, len) }
    }

    /// Whether the vector is the degenerate zero direction.
    pub fn near_zero(self) -> (r: bool)
        ensures
            r == near_zero_spec(self),
    {
        self.x == 0 && self.y == 0 && self.z == 0
    }
}

/// A vector's dot product with itself is nonnegative, saturation
/// included.
pub proof fn lemma_dot_self_nonneg(v: Vec3)
    ensures
        dot_spec(v, v) >= 0,
{
    crate::fixed::lemma_fp_square_nonneg(v.x);
    crate::fixed::lemma_fp_square_nonneg(v.y);
    crate::fixed::lemma_fp_square_nonneg(v.z);
}

/// Mirror reflection of `v` about the surface normal `n`.
pub fn reflect(v: Vec3, n: Vec3) -> (r: Vec3)
    ensures
        r == reflect_spec(v, n),
{
    v.sub(n.scale(fp_mul(FP_TWO, v.dot(n))))
}

/// Snell refraction of the unit direction `uv` at a surface with normal
/// `n` and refractive ratio `etai_over_etat`.
pub fn refract(uv: Vec3, n: Vec3, etai_over_etat: i64) -> (r: Vec3)
    ensures
        r == refract_spec(uv, n, etai_over_etat),
{
    let cos_theta = fp_min(FP_ONE, fp_neg(uv.dot(n)));
    let r_out_perp = uv.add(n.scale(cos_theta)).scale(etai_over_etat);
    let r_out_parallel = n.scale(
        fp_neg(fp_sqrt(fp_abs(fp_sub(FP_ONE, r_out_perp.length_squared())))),
    );
    r_out_perp.add(r_out_parallel)
}

} // verus!
