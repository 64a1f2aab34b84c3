//! Closed/open fixed-point ranges, used both for admissible hit
//! parameters and for clamping color channels.

use vstd::prelude::*;

verus! {

/// A fixed-point range `[min, max]`.
#[derive(Clone, Copy, PartialEq, Eq, Structural, Debug)]
pub struct Interval {
    pub min: i64,
    pub max: i64,
}

/// Spec mirror of the strict containment test.
pub open spec fn surrounds_spec(i: Interval, x: i64) -> bool {
    i.min < x && x < i.max
}

/// Spec mirror of saturation into the range.
pub open spec fn clamp_spec(i: Interval, x: i64) -> i64 {
    if x < i.min {
        i.min
    } else if x > i.max {
        i.max
    } else {
        x
    }
}

impl Interval {
    /// Build a range from its two bounds.
    pub fn new(min: i64, max: i64) -> (r: Interval)
        ensures
            r == (Interval { min, max }),
    {
        Interval { min, max }
    }

    /// Whether `x` lies strictly inside the range. The strictness at both
    /// ends is deliberate: hit parameters exactly at the lower bound are
    /// rejected to avoid self-intersection.
    pub fn surrounds(&self, x: i64) -> (r: bool)
        ensures
            r == surrounds_spec(*self, x),
    {
        self.min < x && x < self.max
    }

    /// Saturate `x` into `[min, max]`.
    pub fn clamp(&self, x: i64) -> (r: i64)
        ensures
            r == clamp_spec(*self, x),
    {
        if x < self.min {
            return self.min;
        }
        if x > self.max {
            return self.max;
        }
        x
    }
}

} // verus!
