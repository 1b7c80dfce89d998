//! The camera: maps normalized image coordinates to world-space rays, with
//! perspective projection, arbitrary orientation and a finite-aperture lens.

use vstd::prelude::*;
use crate::fixed::{FX_ONE, fx_mul, fx_div, mul_fx, div_fx};
use crate::ray::Ray;
use crate::rng::{RandSource, SAMPLE_TRIES, spec_unit_sample};
use crate::vec3::{
    Vec3, cross, dot, spec_add, spec_cross, spec_dot, spec_len, spec_scale, spec_sub, spec_to_unit,
};

verus! {

/// Ray-generation state: the viewport corner and spans, the orthonormal
/// basis `x0`, `y0` (with the implicit forward axis), and the lens radius.
#[derive(Clone, Copy, PartialEq, Eq, Structural, Debug)]
pub struct Camera {
    pub origin: Vec3,
    pub lower_left_corner: Vec3,
    pub horizontal: Vec3,
    pub vertical: Vec3,
    pub x0: Vec3,
    pub y0: Vec3,
    /// The larger the lens, the more defocus blur around the focus plane.
    pub lens_radius: i64,
}

/// The parameters a camera is built from.
#[derive(Clone, Copy, PartialEq, Eq, Structural, Debug)]
pub struct CameraInfo {
    /// The origin of the camera.
    pub look_from: Vec3,
    /// The point at which the camera is looking.
    pub look_at: Vec3,
    /// A hint for the vertical direction of the scene, from which the
    /// camera's orthonormal basis is calculated.
    pub view_up: Vec3,
    /// The tangent of half the vertical field of view. (The trigonometric
    /// evaluation is left to the caller; the camera works directly with the
    /// viewport half-height it induces.)
    pub tan_half_fov: i64,
    /// The ratio of width to height.
    pub aspect: i64,
    /// The lens diameter; 0 turns defocus blur off completely.
    pub aperture: i64,
    /// The distance from the origin at which objects are in sharp focus.
    pub focus_distance: i64,
}

/// The fixed axis-aligned camera: a pinhole at the origin looking down the
/// negative z axis onto a 4x2 viewport at distance 1.
pub open spec fn spec_axis_aligned() -> Camera {
    Camera {
        lower_left_corner: Vec3 {
            x: (-2 * FX_ONE) as i64,
            y: (-FX_ONE) as i64,
            z: (-FX_ONE) as i64,
        },
        horizontal: Vec3 { x: (4 * FX_ONE) as i64, y: 0, z: 0 },
        vertical: Vec3 { x: 0, y: (2 * FX_ONE) as i64, z: 0 },
        origin: Vec3 { x: 0, y: 0, z: 0 },
        x0: Vec3 { x: FX_ONE, y: 0, z: 0 },
        y0: Vec3 { x: 0, y: FX_ONE, z: 0 },
        lens_radius: 0,
    }
}

/// Camera construction: the orthonormal basis is `z0 = unit(from - at)`,
/// `x0 = unit(view_up x z0)`, `y0 = z0 x x0`; the viewport corner and spans
/// are scaled by the focus distance so objects there are in sharp focus.
pub open spec fn spec_camera_new(info: CameraInfo) -> Camera {
    let half_height = info.tan_half_fov as int;
    let half_width = fx_mul(info.aspect as int, half_height);
    let z0 = spec_to_unit(spec_sub(info.look_from, info.look_at));
    let x0 = spec_to_unit(spec_cross(info.view_up, z0));
    let y0 = spec_cross(z0, x0);
    Camera {
        origin: info.look_from,
        lower_left_corner: spec_sub(
            spec_sub(
                spec_sub(
                    info.look_from,
                    spec_scale(spec_scale(x0, info.focus_distance as int), half_width),
                ),
                spec_scale(spec_scale(y0, info.focus_distance as int), half_height),
            ),
            spec_scale(z0, info.focus_distance as int),
        ),
        horizontal: spec_scale(
            spec_scale(spec_scale(x0, info.focus_distance as int), 2 * FX_ONE),
            half_width,
        ),
        vertical: spec_scale(
            spec_scale(spec_scale(y0, info.focus_distance as int), 2 * FX_ONE),
            half_height,
        ),
        x0: x0,
        y0: y0,
        lens_radius: fx_div(info.aperture as int, 2 * FX_ONE) as i64,
    }
}

/// The candidate the disk sampler builds from two consecutive stream
/// positions: `2*u - 1` in x and y, zero in z.
pub open spec fn spec_disk_candidate(seed: u64, ctr: nat) -> Vec3 {
    Vec3 {
        x: (2 * spec_unit_sample(seed, ctr) - FX_ONE) as i64,
        y: (2 * spec_unit_sample(seed, ctr + 1) - FX_ONE) as i64,
        z: 0,
    }
}

/// Rejection sampling of a point in the open unit disk (z = 0), with a
/// zero-vector fallback once `tries` candidates were rejected. Returns the
/// point and the stream position after the draws.
pub open spec fn spec_disk_sample_from(seed: u64, ctr: nat, tries: nat) -> (Vec3, nat)
    decreases tries,
{
    if tries == 0 {
        (Vec3 { x: 0, y: 0, z: 0 }, ctr)
    } else {
        let p = spec_disk_candidate(seed, ctr);
        if spec_dot(p, p) < FX_ONE {
            (p, (ctr + 2) as nat)
        } else {
            spec_disk_sample_from(seed, (ctr + 2) as nat, (tries - 1) as nat)
        }
    }
}

/// The disk sample taken at stream position `ctr`, with the standard number
/// of tries.
pub open spec fn spec_disk_sample(seed: u64, ctr: nat) -> (Vec3, nat) {
    spec_disk_sample_from(seed, ctr, SAMPLE_TRIES as nat)
}

/// A random point in the open unit disk.
fn rand_in_unit_disk(rng: &mut RandSource) -> (v: Vec3)
    ensures
        ({
            let (sv, c2) = spec_disk_sample(old(rng).seed(), old(rng).drawn());
            v == sv && final(rng).seed() == old(rng).seed() && final(rng).drawn() == c2
        }),
{
    disk_sample_from(rng, SAMPLE_TRIES)
}

/// One round of the disk sampler's rejection loop.
fn disk_sample_from(rng: &mut RandSource, tries: u32) -> (v: Vec3)
    ensures
        ({
            let (sv, c2) = spec_disk_sample_from(old(rng).seed(), old(rng).drawn(), tries as nat);
            v == sv && final(rng).seed() == old(rng).seed() && final(rng).drawn() == c2
        }),
    decreases tries,
{
    if tries == 0 {
        Vec3 { x: 0, y: 0, z: 0 }
    } else {
        let x = 2 * rng.gen_unit() - FX_ONE;
        let y = 2 * rng.gen_unit() - FX_ONE;
        let p = Vec3 { x: x, y: y, z: 0 };
        if dot(p, p) < FX_ONE {
            p
        } else {
            disk_sample_from(rng, tries - 1)
        }
    }
}

/// The ray for image coordinates `(h, v)`: a disk sample scaled by the lens
/// radius offsets the origin along the basis, and the direction aims at the
/// `(h, v)` point of the focus-scaled viewport, corrected by the same offset
/// so the ray still converges through the focus plane.
pub open spec fn spec_camera_ray(cam: Camera, h: int, v: int, seed: u64, ctr: nat) -> (Ray, nat) {
    let (d, c2) = spec_disk_sample(seed, ctr);
    let rd = spec_scale(d, cam.lens_radius as int);
    let offset = spec_add(
        spec_scale(cam.x0, rd.x as int),
        spec_scale(cam.y0, rd.y as int),
    );
    (
        Ray {
            origin: spec_add(cam.origin, offset),
            direction: spec_sub(
                spec_sub(
                    spec_add(
                        spec_add(cam.lower_left_corner, spec_scale(cam.horizontal, h)),
                        spec_scale(cam.vertical, v),
                    ),
                    cam.origin,
                ),
                offset,
            ),
        },
        c2,
    )
}

impl Camera {
    /// The fixed axis-aligned pinhole camera.
    pub fn axis_aligned() -> (c: Camera)
        ensures
            c == spec_axis_aligned(),
    {
        Camera {
            lower_left_corner: Vec3 { x: -2 * FX_ONE, y: -FX_ONE, z: -FX_ONE },
            horizontal: Vec3 { x: 4 * FX_ONE, y: 0, z: 0 },
            vertical: Vec3 { x: 0, y: 2 * FX_ONE, z: 0 },
            origin: Vec3 { x: 0, y: 0, z: 0 },
            x0: Vec3 { x: FX_ONE, y: 0, z: 0 },
            y0: Vec3 { x: 0, y: FX_ONE, z: 0 },
            lens_radius: 0,
        }
    }

    /// Build a camera from its parameters. The view direction and the cross
    /// product of the up hint with it must be non-degenerate, or the basis
    /// would collapse.
    pub fn new(info: CameraInfo) -> (c: Camera)
        requires
            spec_len(spec_sub(info.look_from, info.look_at)) > 0,
            spec_len(spec_cross(info.view_up, spec_to_unit(spec_sub(info.look_from, info.look_at))))
                > 0,
        ensures
            c == spec_camera_new(info),
    {
        let half_height = info.tan_half_fov;
        let half_width = mul_fx(info.aspect, half_height);
        let z0 = info.look_from.sub(info.look_at).to_unit();
        let x0 = cross(info.view_up, z0).to_unit();
        let y0 = cross(z0, x0);
        Camera {
            origin: info.look_from,
            lower_left_corner: info.look_from.sub(
                x0.scale(info.focus_distance).scale(half_width),
            ).sub(y0.scale(info.focus_distance).scale(half_height)).sub(
                z0.scale(info.focus_distance),
            ),
            horizontal: x0.scale(info.focus_distance).scale(2 * FX_ONE).scale(half_width),
            vertical: y0.scale(info.focus_distance).scale(2 * FX_ONE).scale(half_height),
            x0: x0,
            y0: y0,
            lens_radius: div_fx(info.aperture, 2 * FX_ONE),
        }
    }

    /// The ray through normalized image coordinates `(h, v)`.
    pub fn ray(&self, h: i64, v: i64, rng: &mut RandSource) -> (r: Ray)
        ensures
            ({
                let (sr, c2) = spec_camera_ray(*self, h as int, v as int, old(rng).seed(), old(rng).drawn());
                r == sr && final(rng).seed() == old(rng).seed() && final(rng).drawn() == c2
            }),
    {
        let rd = rand_in_unit_disk(rng).scale(self.lens_radius);
        let offset = self.x0.scale(rd.x).add(self.y0.scale(rd.y));
        Ray {
            origin: self.origin.add(offset),
            direction: self.lower_left_corner.add(self.horizontal.scale(h)).add(
                self.vertical.scale(v),
            ).sub(self.origin).sub(offset),
        }
    }
}

} // verus!
