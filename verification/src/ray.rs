//! Rays: a parametric half-line through the scene.

use vstd::prelude::*;
use crate::vec3::{Vec3, spec_add, spec_scale};

verus! {

/// A parametric line `origin + t * direction`. The direction need not be a
/// unit vector unless a routine explicitly asks for one.
#[derive(Clone, Copy, PartialEq, Eq, Structural, Debug)]
pub struct Ray {
    pub origin: Vec3,
    pub direction: Vec3,
}

/// The point reached after advancing `t` along the ray.
pub open spec fn spec_point_at(ray: Ray, t: int) -> Vec3 {
    spec_add(ray.origin, spec_scale(ray.direction, t))
}

impl Ray {
    /// The point reached after advancing `t` along the ray.
    pub fn point_at(&self, t: i64) -> (p: Vec3)
        ensures
            p == spec_point_at(*self, t as int),
    {
        self.origin.add(self.direction.scale(t))
    }
}

} // verus!
