//! The color pipeline: gamma correction, clamping, and the mapping of a
//! linear color to the byte triple an image sink consumes.

use vstd::prelude::*;

use crate::fixed::{fp_sqrt, fp_sqrt_spec};
use crate::interval::{clamp_spec, Interval};
use crate::vec3::Vec3;

verus! {

/// The top of the admissible intensity range: just under one, so that
/// the byte mapping never reaches 256.
pub const INTENSITY_MAX: i64 = 65470;

/// Spec mirror of gamma-2 correction: the square root of a positive
/// channel, zero otherwise.
pub open spec fn linear_to_gamma_spec(linear_component: i64) -> i64 {
    if linear_component > 0 {
        fp_sqrt_spec(linear_component)
    } else {
        0
    }
}

/// Spec mirror of the whole per-channel pipeline: gamma correction,
/// clamping into `[0, INTENSITY_MAX]`, and truncation to an 8-bit value.
pub open spec fn color_byte_spec(x: i64) -> u8 {
    let g = linear_to_gamma_spec(x);
    let c = clamp_spec(Interval { min: 0i64, max: INTENSITY_MAX }, g);
    (c / 256) as u8
}

/// Spec mirror of the pipeline over all three channels at once.
pub open spec fn color_bytes_spec(c: Vec3) -> (u8, u8, u8) {
    (color_byte_spec(c.x), color_byte_spec(c.y), color_byte_spec(c.z))
}

/// Gamma-2 correction of one linear channel.
pub fn linear_to_gamma(linear_component: i64) -> (r: i64)
    ensures
        r == linear_to_gamma_spec(linear_component),
{
    if linear_component > 0 {
        return fp_sqrt(linear_component);
    }
    0
}

/// One channel through the whole pipeline.
fn channel_byte(x: i64, intensity: &Interval) -> (r: u8)
    requires
        *intensity == (Interval { min: 0i64, max: INTENSITY_MAX }),
    ensures
        r == color_byte_spec(x),
{
    let g = linear_to_gamma(x);
    let c = intensity.clamp(g);
    ((c as u64) / 256) as u8
}

/// Translate a linear color to the `[0, 255]` byte triple handed to the
/// image sink.
pub fn color_to_bytes(pixel_color: Vec3) -> (r: (u8, u8, u8))
    ensures
        r == color_bytes_spec(pixel_color),
        r.0 == color_byte_spec(pixel_color.x),
        r.1 == color_byte_spec(pixel_color.y),
        r.2 == color_byte_spec(pixel_color.z),
{
    let intensity = Interval::new(0, INTENSITY_MAX);
    let rbyte = channel_byte(pixel_color.x, &intensity);
    let gbyte = channel_byte(pixel_color.y, &intensity);
    let bbyte = channel_byte(pixel_color.z, &intensity);
    (rbyte, gbyte, bbyte)
}

} // verus!
