//! Ray, sphere-intersection and scene-list behavior, with exact
//! fixed-point expectations.

use raytracer::fixed::FX_ONE;
use raytracer::hit::Hit;
use raytracer::ray::Ray;
use raytracer::scatter::{Lambertian, Material};
use raytracer::sphere::Sphere;
use raytracer::vec3::{Vec3, dot};

fn gray_sphere(center: Vec3, radius: i64) -> Sphere {
    Sphere {
        center,
        radius,
        material: Material::Lambertian(Lambertian {
            albedo: Vec3 { x: 32768, y: 32768, z: 32768 },
        }),
    }
}

#[test]
fn point_at_advances_along_direction() {
    let ray = Ray {
        origin: Vec3 { x: FX_ONE, y: 0, z: 0 },
        direction: Vec3 { x: 0, y: 2 * FX_ONE, z: -FX_ONE },
    };
    // origin + 0.5 * direction
    assert_eq!(
        ray.point_at(32768),
        Vec3 { x: FX_ONE, y: FX_ONE, z: -32768 }
    );
}

#[test]
fn center_ray_hits_unit_half_sphere() {
    // A sphere of radius 0.5 at (0, 0, -1), probed straight down the axis.
    let sphere = gray_sphere(Vec3 { x: 0, y: 0, z: -FX_ONE }, 32768);
    let ray = Ray {
        origin: Vec3 { x: 0, y: 0, z: 0 },
        direction: Vec3 { x: 0, y: 0, z: -FX_ONE },
    };
    let rec = sphere.hit(&ray, 64, i64::MAX).expect("the axis ray must hit");
    assert_eq!(rec.t, 32768);
    assert_eq!(rec.point, Vec3 { x: 0, y: 0, z: -32768 });
    assert_eq!(rec.normal, Vec3 { x: 0, y: 0, z: FX_ONE });
}

#[test]
fn hit_record_is_on_the_surface() {
    // |point - center| equals the radius and the normal points outward.
    let center = Vec3 { x: 0, y: 0, z: -FX_ONE };
    let sphere = gray_sphere(center, 32768);
    let ray = Ray {
        origin: Vec3 { x: 0, y: 0, z: 0 },
        direction: Vec3 { x: 0, y: 0, z: -FX_ONE },
    };
    let rec = sphere.hit(&ray, 64, i64::MAX).expect("the axis ray must hit");
    let offset = rec.point.sub(center);
    assert_eq!(offset.len(), 32768);
    let nlen = rec.normal.len();
    assert!(nlen >= FX_ONE - 16 && nlen <= FX_ONE + 16);
    assert!(dot(rec.normal, offset) > 0);
}

#[test]
fn empty_interval_rejects_all_roots() {
    // With t_max = 0 the valid interval is empty: no intersection.
    let sphere = gray_sphere(Vec3 { x: 0, y: 0, z: -FX_ONE }, 32768);
    let ray = Ray {
        origin: Vec3 { x: 0, y: 0, z: 0 },
        direction: Vec3 { x: 0, y: 0, z: -FX_ONE },
    };
    assert!(sphere.hit(&ray, 64, 0).is_none());
}

#[test]
fn ray_from_inside_uses_far_root() {
    // From the center of a unit sphere, the near root (-1) is out of range
    // and the far root (+1) is reported.
    let sphere = gray_sphere(Vec3 { x: 0, y: 0, z: 0 }, FX_ONE);
    let ray = Ray {
        origin: Vec3 { x: 0, y: 0, z: 0 },
        direction: Vec3 { x: 0, y: 0, z: -FX_ONE },
    };
    let rec = sphere.hit(&ray, 64, i64::MAX).expect("the far root is in range");
    assert_eq!(rec.t, FX_ONE);
    assert_eq!(rec.point, Vec3 { x: 0, y: 0, z: -FX_ONE });
}

#[test]
fn miss_returns_none() {
    let sphere = gray_sphere(Vec3 { x: 0, y: 0, z: -FX_ONE }, 32768);
    let ray = Ray {
        origin: Vec3 { x: 0, y: 0, z: 0 },
        direction: Vec3 { x: 0, y: FX_ONE, z: 0 },
    };
    assert!(sphere.hit(&ray, 64, i64::MAX).is_none());
}

#[test]
fn list_reports_globally_nearest_hit() {
    let near = gray_sphere(Vec3 { x: 0, y: 0, z: -2 * FX_ONE }, 32768);
    let far = gray_sphere(Vec3 { x: 0, y: 0, z: -4 * FX_ONE }, 32768);
    let ray = Ray {
        origin: Vec3 { x: 0, y: 0, z: 0 },
        direction: Vec3 { x: 0, y: 0, z: -FX_ONE },
    };
    // 1.5 in fixed point, whatever the order of the list.
    let world_a: Vec<Sphere> = vec![near, far];
    let world_b: Vec<Sphere> = vec![far, near];
    assert_eq!(world_a.hit(&ray, 64, i64::MAX).expect("hit").t, 98304);
    assert_eq!(world_b.hit(&ray, 64, i64::MAX).expect("hit").t, 98304);
}

#[test]
fn empty_list_misses() {
    let world: Vec<Sphere> = vec![];
    let ray = Ray {
        origin: Vec3 { x: 0, y: 0, z: 0 },
        direction: Vec3 { x: 0, y: 0, z: -FX_ONE },
    };
    assert!(world.hit(&ray, 64, i64::MAX).is_none());
}
