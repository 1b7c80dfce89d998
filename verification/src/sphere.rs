//! The sphere primitive and its analytic ray-intersection test.

use vstd::prelude::*;
use crate::fixed::{FX_ONE, fx_add, fx_sub, fx_mul, fx_div, fx_sqrt, add_fx, sub_fx, mul_fx, div_fx, sqrt_fx};
use crate::hit::{Hit, HitRecord};
use crate::ray::{Ray, spec_point_at};
use crate::scatter::Material;
use crate::vec3::{Vec3, dot, spec_dot, spec_sub, spec_to_unit};

verus! {

/// A sphere: center, radius and surface material.
#[derive(Clone, Copy, PartialEq, Eq, Structural, Debug)]
pub struct Sphere {
    pub center: Vec3,
    pub radius: i64,
    pub material: Material,
}

/// The hit record a sphere reports for root `t`: the point reached along the
/// ray, and the outward normal obtained by normalizing `point - center`.
pub open spec fn spec_sphere_record(s: Sphere, ray: Ray, t: int) -> HitRecord {
    let point = spec_point_at(ray, t);
    HitRecord {
        t: t as i64,
        point: point,
        normal: spec_to_unit(spec_sub(point, s.center)),
        material: s.material,
    }
}

/// Ray-sphere intersection. With ray origin `A`, direction `B`, center `C`
/// and radius `R`, solve `a*t^2 + b*t + c = 0` for `a = dot(B,B)`,
/// `b = 2*dot(B, A-C)`, `c = dot(A-C, A-C) - R^2`. If the discriminant
/// `b^2 - 4*a*c` is positive, the smaller root is preferred, then the larger;
/// a root counts only strictly inside `(min, max)`.
pub open spec fn spec_sphere_hit(s: Sphere, ray: Ray, min: int, max: int) -> Option<HitRecord> {
    let oc = spec_sub(ray.origin, s.center);
    let a = spec_dot(ray.direction, ray.direction);
    let b = fx_add(spec_dot(ray.direction, oc), spec_dot(ray.direction, oc));
    let c = fx_sub(spec_dot(oc, oc), fx_mul(s.radius as int, s.radius as int));
    let disc = fx_sub(fx_mul(b, b), fx_mul(4 * FX_ONE, fx_mul(a, c)));
    if disc > 0 {
        let sq = fx_sqrt(disc);
        let denom = fx_add(a, a);
        let near = fx_div(fx_sub(fx_sub(0, b), sq), denom);
        let far = fx_div(fx_add(fx_sub(0, b), sq), denom);
        if min < near < max {
            Some(spec_sphere_record(s, ray, near))
        } else if min < far < max {
            Some(spec_sphere_record(s, ray, far))
        } else {
            None
        }
    } else {
        None
    }
}

impl Hit for Sphere {
    open spec fn hit_spec(&self, ray: Ray, min: int, max: int) -> Option<HitRecord> {
        spec_sphere_hit(*self, ray, min, max)
    }

    fn hit(&self, ray: &Ray, min: i64, max: i64) -> (r: Option<HitRecord>)
        ensures
            r == self.hit_spec(*ray, min as int, max as int),
    {
        let oc = ray.origin.sub(self.center);
        let a = dot(ray.direction, ray.direction);
        let half_b = dot(ray.direction, oc);
        let b = add_fx(half_b, half_b);
        let c = sub_fx(dot(oc, oc), mul_fx(self.radius, self.radius));
        let disc = sub_fx(mul_fx(b, b), mul_fx(4 * FX_ONE, mul_fx(a, c)));
        if disc > 0 {
            let sq = sqrt_fx(disc);
            let denom = add_fx(a, a);
            let near = div_fx(sub_fx(sub_fx(0, b), sq), denom);
            if min < near && near < max {
                return Some(self.record_at(ray, near));
            }
            let far = div_fx(add_fx(sub_fx(0, b), sq), denom);
            if min < far && far < max {
                return Some(self.record_at(ray, far));
            }
            None
        } else {
            None
        }
    }
}

impl Sphere {
    /// Build the hit record for root `t`.
    fn record_at(&self, ray: &Ray, t: i64) -> (rec: HitRecord)
        ensures
            rec == spec_sphere_record(*self, *ray, t as int),
    {
        let point = ray.point_at(t);
        HitRecord {
            t: t,
            point: point,
            normal: point.sub(self.center).to_unit(),
            material: self.material,
        }
    }
}

} // verus!
