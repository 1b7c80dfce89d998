//! Camera construction, the integrator and whole renders.

use raytracer::camera::{Camera, CameraInfo};
use raytracer::fixed::FX_ONE;
use raytracer::hit::Hit;
use raytracer::ray::Ray;
use raytracer::rng::RandSource;
use raytracer::scatter::{Lambertian, Material, Reflective};
use raytracer::sphere::Sphere;
use raytracer::trace::{background, compute_color, render};
use raytracer::vec3::Vec3;

const ZERO: Vec3 = Vec3 { x: 0, y: 0, z: 0 };
const WHITE: Vec3 = Vec3 { x: FX_ONE, y: FX_ONE, z: FX_ONE };

fn diffuse_sphere(center: Vec3, radius: i64, albedo: Vec3) -> Sphere {
    Sphere { center, radius, material: Material::Lambertian(Lambertian { albedo }) }
}

fn mirror_sphere(center: Vec3, radius: i64) -> Sphere {
    Sphere { center, radius, material: Material::Reflective(Reflective { albedo: WHITE, fuzz: 0 }) }
}

#[test]
fn axis_aligned_camera_fields() {
    let cam = Camera::axis_aligned();
    assert_eq!(cam.origin, ZERO);
    assert_eq!(cam.lower_left_corner, Vec3 { x: -2 * FX_ONE, y: -FX_ONE, z: -FX_ONE });
    assert_eq!(cam.horizontal, Vec3 { x: 4 * FX_ONE, y: 0, z: 0 });
    assert_eq!(cam.vertical, Vec3 { x: 0, y: 2 * FX_ONE, z: 0 });
    assert_eq!(cam.lens_radius, 0);
}

#[test]
fn constructed_camera_matches_axis_aligned() {
    // A 90-degree field of view (tangent 1), aspect 2, pinhole, focus 1,
    // looking down the negative z axis, reproduces the axis-aligned camera.
    let cam = Camera::new(CameraInfo {
        look_from: ZERO,
        look_at: Vec3 { x: 0, y: 0, z: -FX_ONE },
        view_up: Vec3 { x: 0, y: FX_ONE, z: 0 },
        tan_half_fov: FX_ONE,
        aspect: 2 * FX_ONE,
        aperture: 0,
        focus_distance: FX_ONE,
    });
    assert_eq!(cam, Camera::axis_aligned());
}

#[test]
fn pinhole_center_ray() {
    // With a zero lens radius the disk sample is scaled away: the ray
    // through the image center is exact.
    let cam = Camera::axis_aligned();
    let mut rng = RandSource::new(1);
    let ray = cam.ray(32768, 32768, &mut rng);
    assert_eq!(ray.origin, ZERO);
    assert_eq!(ray.direction, Vec3 { x: 0, y: 0, z: -FX_ONE });
}

#[test]
fn background_midpoint_gradient() {
    // A horizontal ray: unit y is 0, the blend factor is exactly 1/2.
    let ray = Ray { origin: ZERO, direction: Vec3 { x: 0, y: 0, z: -FX_ONE } };
    let c = background(&ray);
    // (white + sky) / 2 with sky (0.5, 45875/65536, 1).
    assert_eq!(c, Vec3 { x: 49152, y: 32768 + 22937, z: FX_ONE });
}

#[test]
fn empty_scene_returns_background() {
    let world: Vec<Sphere> = vec![];
    let ray = Ray { origin: ZERO, direction: Vec3 { x: 12345, y: 23456, z: -FX_ONE } };
    let mut rng = RandSource::new(17);
    let c = compute_color(&ray, &world, 0, 50, &mut rng);
    assert_eq!(c, background(&ray));
}

#[test]
fn center_ray_sees_the_sphere_not_the_background() {
    // A single diffuse sphere dead ahead: the traced color is attenuated by
    // the albedo, so it cannot be the background gradient.
    let albedo = Vec3 { x: 52428, y: 19660, z: 19660 };
    let world: Vec<Sphere> = vec![diffuse_sphere(Vec3 { x: 0, y: 0, z: -FX_ONE }, 32768, albedo)];
    let cam = Camera::axis_aligned();
    let mut rng = RandSource::new(2024);
    let ray = cam.ray(32768, 32768, &mut rng);
    assert!(world.hit(&ray, 64, i64::MAX).is_some());
    let c = compute_color(&ray, &world, 0, 50, &mut rng);
    let bg = background(&ray);
    assert_ne!(c, bg);
    // Every traced color is attenuated through the green channel's 0.3
    // albedo, so it stays far below the background's green.
    assert!(c.y <= 19660);
    assert!(bg.y > 50000);
}

#[test]
fn nested_mirrors_cut_off_at_max_depth() {
    // Two facing mirror spheres bounce a ray forever; the integrator must
    // still return a value, and the depth cutoff makes it black.
    let world: Vec<Sphere> = vec![
        mirror_sphere(Vec3 { x: 0, y: 0, z: 2 * FX_ONE }, FX_ONE),
        mirror_sphere(Vec3 { x: 0, y: 0, z: -2 * FX_ONE }, FX_ONE),
    ];
    let ray = Ray { origin: ZERO, direction: Vec3 { x: 0, y: 0, z: -FX_ONE } };
    for max_depth in [1, 7, 50] {
        let mut rng = RandSource::new(5);
        let c = compute_color(&ray, &world, 0, max_depth, &mut rng);
        assert_eq!(c, ZERO);
    }
}

#[test]
fn renders_are_deterministic_per_seed() {
    let albedo = Vec3 { x: 52428, y: 19660, z: 19660 };
    let world: Vec<Sphere> = vec![
        diffuse_sphere(Vec3 { x: 0, y: 0, z: -FX_ONE }, 32768, albedo),
        mirror_sphere(Vec3 { x: FX_ONE, y: 0, z: -FX_ONE }, 32768),
    ];
    let cam = Camera::axis_aligned();
    let mut rng1 = RandSource::new(99);
    let mut rng2 = RandSource::new(99);
    let img1 = render(&cam, &world, 8, 4, 3, 20, &mut rng1);
    let img2 = render(&cam, &world, 8, 4, 3, 20, &mut rng2);
    assert_eq!(img1.len(), 32);
    assert_eq!(img1, img2);
}

#[test]
fn empty_scene_render_rows_repeat() {
    // In an empty scene the color depends only on the ray, and every pixel
    // is some blend of white and sky: full red is impossible.
    let world: Vec<Sphere> = vec![];
    let cam = Camera::axis_aligned();
    let mut rng = RandSource::new(123);
    let img = render(&cam, &world, 4, 2, 2, 10, &mut rng);
    assert_eq!(img.len(), 8);
    for p in img.iter() {
        assert!(p.2 >= p.0 && p.2 >= p.1);
    }
}
