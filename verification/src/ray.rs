//! Rays: an origin plus a direction, evaluated at a fixed-point parameter.

use vstd::prelude::*;

use crate::vec3::{vadd_spec, vscale_spec, Vec3};

verus! {

/// A half-line `origin + t * direction`.
#[derive(Clone, Copy, PartialEq, Eq, Structural, Debug)]
pub struct Ray {
    pub orig: Vec3,
    pub dir: Vec3,
}

/// Spec mirror of evaluating a ray at parameter `t`.
pub open spec fn ray_at_spec(r: Ray, t: i64) -> Vec3 {
    vadd_spec(r.orig, vscale_spec(r.dir, t))
}

impl Ray {
    /// Spec view of the origin.
    pub open spec fn origin_spec(self) -> Vec3 {
        self.orig
    }

    /// Spec view of the direction.
    pub open spec fn direction_spec(self) -> Vec3 {
        self.dir
    }

    /// Build a ray from an origin and a direction.
    pub fn new(origin: Vec3, direction: Vec3) -> (r: Ray)
        ensures
            r.origin_spec() == origin,
            r.direction_spec() == direction,
    {
        Ray { orig: origin, dir: direction }
    }

    /// The ray's origin.
    pub fn origin(&self) -> (r: Vec3)
        ensures
            r == self.origin_spec(),
    {
        self.orig
    }

    /// The ray's direction.
    pub fn direction(&self) -> (r: Vec3)
        ensures
            r == self.direction_spec(),
    {
        self.dir
    }

    /// The point reached after parameter `t`.
    pub fn at(&self, t: i64) -> (r: Vec3)
        ensures
            r == ray_at_spec(*self, t),
    {
        self.orig.add(self.dir.scale(t))
    }
}

} // verus!
