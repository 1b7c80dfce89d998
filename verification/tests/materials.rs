//! Scattering behavior of the three material models.

use raytracer::fixed::FX_ONE;
use raytracer::ray::Ray;
use raytracer::rng::RandSource;
use raytracer::scatter::{
    Dielectric, Lambertian, Material, Reflective, Scatter, reflect, refract, schlick,
};
use raytracer::vec3::{Vec3, dot};

const WHITE: Vec3 = Vec3 { x: FX_ONE, y: FX_ONE, z: FX_ONE };

#[test]
fn reflect_about_axis_normal() {
    let n = Vec3 { x: 0, y: 0, z: FX_ONE };
    let v = Vec3 { x: 19660, y: -5000, z: 32768 };
    let r = reflect(v, n);
    assert_eq!(r, Vec3 { x: 19660, y: -5000, z: -32768 });
    // dot(reflect(v, n), n) == -dot(v, n) for an exactly unit normal.
    assert_eq!(dot(r, n), -dot(v, n));
}

#[test]
fn lambertian_always_scatters_with_albedo() {
    let albedo = Vec3 { x: 52428, y: 19660, z: 19660 };
    let mat = Lambertian { albedo };
    let ray = Ray {
        origin: Vec3 { x: 0, y: 0, z: 0 },
        direction: Vec3 { x: 0, y: 0, z: -FX_ONE },
    };
    let point = Vec3 { x: 0, y: 0, z: -32768 };
    let normal = Vec3 { x: 0, y: 0, z: FX_ONE };
    let mut rng = RandSource::new(11);
    let rec = mat.scatter(&ray, point, normal, &mut rng).expect("diffuse always scatters");
    assert_eq!(rec.attenuation, albedo);
    assert_eq!(rec.ray.origin, point);
}

#[test]
fn mirror_reflection_into_surface_is_absorbed() {
    // A perfectly mirrored metal sphere (fuzz = 0) whose reflection points
    // into the surface returns no scatter record.
    let mat = Reflective { albedo: WHITE, fuzz: 0 };
    let normal = Vec3 { x: 0, y: 0, z: FX_ONE };
    let ray = Ray {
        origin: Vec3 { x: 0, y: 0, z: -FX_ONE },
        // Leaving the surface along the normal: the reflection points back in.
        direction: Vec3 { x: 0, y: 0, z: FX_ONE },
    };
    let reflected = reflect(ray.direction.to_unit(), normal);
    assert!(dot(reflected, normal) <= 0);
    let mut rng = RandSource::new(3);
    assert!(mat.scatter(&ray, Vec3 { x: 0, y: 0, z: 0 }, normal, &mut rng).is_none());
}

#[test]
fn mirror_reflection_away_from_surface_scatters_exactly() {
    let mat = Reflective { albedo: WHITE, fuzz: 0 };
    let normal = Vec3 { x: 0, y: 0, z: FX_ONE };
    let ray = Ray {
        origin: Vec3 { x: 0, y: 0, z: FX_ONE },
        direction: Vec3 { x: 0, y: 0, z: -FX_ONE },
    };
    let mut rng = RandSource::new(5);
    let rec = mat.scatter(&ray, Vec3 { x: 0, y: 0, z: 0 }, normal, &mut rng).expect("scatters");
    // fuzz = 0: the perturbation is scaled away, the direction is the exact
    // mirror reflection.
    assert_eq!(rec.ray.direction, Vec3 { x: 0, y: 0, z: FX_ONE });
    assert_eq!(rec.attenuation, WHITE);
}

#[test]
fn refraction_straight_through() {
    // Entering glass head-on: the refracted direction is unchanged.
    let n = Vec3 { x: 0, y: 0, z: FX_ONE };
    let d = Vec3 { x: 0, y: 0, z: -FX_ONE };
    // 1 / 1.5 in fixed point.
    let r = refract(d, n, 43690).expect("no total internal reflection head-on");
    assert_eq!(r, Vec3 { x: 0, y: 0, z: -FX_ONE });
}

#[test]
fn total_internal_reflection_reflects() {
    // A shallow exit ray inside glass: no refracted direction exists, the
    // dielectric must fall back to the mirror reflection.
    let mat = Dielectric { refraction_index: 98304 };
    let normal = Vec3 { x: 0, y: 0, z: FX_ONE };
    let direction = Vec3 { x: 60000, y: 0, z: 30000 };
    let ray = Ray { origin: Vec3 { x: 0, y: 0, z: 0 }, direction };
    // Exiting: the outward normal is flipped.
    let outward = normal.scale(-FX_ONE);
    assert!(refract(direction, outward, 98304).is_none());
    let mut rng = RandSource::new(9);
    let rec = mat.scatter(&ray, Vec3 { x: 0, y: 0, z: 0 }, normal, &mut rng).expect("reflects");
    assert_eq!(rec.attenuation, WHITE);
    assert_eq!(rec.ray.direction, reflect(direction, normal));
}

#[test]
fn schlick_head_on_glass() {
    // cos = 1, n = 1.5: r0 = ((1-1.5)/(1+1.5))^2 = 0.04, and the fifth-power
    // term vanishes.
    assert_eq!(schlick(FX_ONE, 98304), 2621);
}

#[test]
fn material_enum_dispatches() {
    let albedo = Vec3 { x: 52428, y: 19660, z: 19660 };
    let mat = Material::Lambertian(Lambertian { albedo });
    let ray = Ray {
        origin: Vec3 { x: 0, y: 0, z: 0 },
        direction: Vec3 { x: 0, y: 0, z: -FX_ONE },
    };
    let mut rng = RandSource::new(11);
    let rec = mat.scatter(
        &ray,
        Vec3 { x: 0, y: 0, z: -32768 },
        Vec3 { x: 0, y: 0, z: FX_ONE },
        &mut rng,
    ).expect("diffuse always scatters");
    assert_eq!(rec.attenuation, albedo);
}

#[test]
fn rng_draws_vary_along_the_stream() {
    // Successive draws come from a real generator, not a constant.
    let mut rng = RandSource::new(7);
    let first = rng.gen_unit();
    let mut saw_different = false;
    for _ in 0..8 {
        if rng.gen_unit() != first {
            saw_different = true;
        }
    }
    assert!(saw_different);
}

#[test]
fn rng_streams_repeat_per_seed() {
    let mut a = RandSource::new(7);
    let mut b = RandSource::new(7);
    for _ in 0..5 {
        let x = a.gen_unit();
        let y = b.gen_unit();
        assert_eq!(x, y);
        assert!(0 <= x && x < FX_ONE);
    }
}
