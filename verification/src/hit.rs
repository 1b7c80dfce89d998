//! Intersection reporting: hit records, the `Hit` capability, and the
//! nearest-hit search over a scene's object list.

use vstd::prelude::*;
use crate::ray::Ray;
use crate::scatter::Material;
use crate::sphere::{Sphere, spec_sphere_hit};
use crate::vec3::Vec3;

verus! {

/// Describes how a ray hit an object: the ray parameter, the point reached,
/// the surface normal there, and the surface's material.
#[derive(Clone, Copy, PartialEq, Eq, Structural, Debug)]
pub struct HitRecord {
    /// The offset parameter with which to advance the ray to the hit point.
    pub t: i64,
    /// The point at which the ray hits the object.
    pub point: Vec3,
    /// The surface normal at that point.
    pub normal: Vec3,
    /// The material of the surface that was hit.
    pub material: Material,
}

/// The capability of being intersected by a ray. `hit` reports the nearest
/// intersection with parameter strictly inside `(min, max)`, or `None`; its
/// result is pinned exactly by the implementor's `hit_spec`.
pub trait Hit {
    /// The mathematical model of `hit`.
    spec fn hit_spec(&self, ray: Ray, min: int, max: int) -> Option<HitRecord>;

    /// Report the nearest intersection with `ray` strictly inside
    /// `(min, max)`, if any.
    fn hit(&self, ray: &Ray, min: i64, max: i64) -> (r: Option<HitRecord>)
        ensures
            r == self.hit_spec(*ray, min as int, max as int),
    ;
}

/// Nearest hit across the first objects of a list: each object is probed
/// with the closest parameter found so far as the upper bound, so the final
/// record is the globally nearest intersection.
pub open spec fn spec_list_hit(objs: Seq<Sphere>, ray: Ray, min: int, max: int) -> Option<
    HitRecord,
>
    decreases objs.len(),
{
    if objs.len() == 0 {
        None
    } else {
        let prev = spec_list_hit(objs.drop_last(), ray, min, max);
        let closest = match prev {
            Some(rec) => rec.t as int,
            None => max,
        };
        match spec_sphere_hit(objs.last(), ray, min, closest) {
            Some(rec) => Some(rec),
            None => prev,
        }
    }
}

impl Hit for Vec<Sphere> {
    open spec fn hit_spec(&self, ray: Ray, min: int, max: int) -> Option<HitRecord> {
        spec_list_hit(self@, ray, min, max)
    }

    fn hit(&self, ray: &Ray, min: i64, max: i64) -> (r: Option<HitRecord>)
        ensures
            r == self.hit_spec(*ray, min as int, max as int),
    {
        let mut record: Option<HitRecord> = None;
        let mut closest: i64 = max;
        let mut i: usize = 0;
        while i < self.len()
            invariant
                i <= self@.len(),
                record == spec_list_hit(self@.take(i as int), *ray, min as int, max as int),
                closest as int == match record {
                    Some(rec) => rec.t as int,
                    None => max as int,
                },
            decreases self@.len() - i,
        {
            proof {
                assert(self@.take(i + 1).drop_last() =~= self@.take(i as int));
                assert(self@.take(i + 1).last() == self@[i as int]);
            }
            let sphere = &self[i];
            match sphere.hit(ray, min, closest) {
                Some(rec) => {
                    closest = rec.t;
                    record = Some(rec);
                },
                None => {},
            }
            i += 1;
        }
        proof {
            assert(self@.take(self@.len() as int) =~= self@);
        }
        record
    }
}

} // verus!
