//! The color integrator and the per-pixel sampler: recursive light
//! transport, the background gradient, and the render loop.

use vstd::prelude::*;
use crate::camera::{Camera, spec_camera_ray};
use crate::fixed::{FX_ONE, clip, fx_add, fx_sub, fx_mul, fx_div, fx_sqrt, add_fx, div_fx};
use crate::hit::Hit;
use crate::ray::Ray;
use crate::rgb::{Rgb, spec_quant_channel};
use crate::rng::{RandSource, spec_unit_sample};
use crate::scatter::Scatter;
use crate::vec3::{Vec3, spec_add, spec_mul, spec_scale, spec_scale_div, spec_to_unit};

verus! {

/// The lower bound of the hit interval: a small positive epsilon rather
/// than 0, so a scattered ray does not immediately re-hit the surface it
/// starts on ("shadow acne").
pub const T_MIN: i64 = 64;

/// Half, in fixed point.
pub const FX_HALF: i64 = 32768;

/// Black: the color of an absorbed or depth-exhausted ray.
pub open spec fn spec_black() -> Vec3 {
    Vec3 { x: 0, y: 0, z: 0 }
}

/// White, the bottom of the background gradient.
pub open spec fn spec_white() -> Vec3 {
    Vec3 { x: FX_ONE, y: FX_ONE, z: FX_ONE }
}

/// Sky blue, the top of the background gradient: (0.5, 0.7, 1.0) in fixed
/// point (the middle channel truncated to 45875/65536).
pub open spec fn spec_sky() -> Vec3 {
    Vec3 { x: FX_HALF, y: 45875, z: FX_ONE }
}

/// The background gradient for a ray that hits nothing: with `t` half of
/// (unit direction's y + 1), blend white toward sky blue,
/// `(1 - t)*white + t*sky`.
pub open spec fn spec_background(ray: Ray) -> Vec3 {
    let unit = spec_to_unit(ray.direction);
    let t = fx_mul(FX_HALF as int, fx_add(unit.y as int, FX_ONE as int));
    spec_add(
        spec_scale(spec_white(), fx_sub(FX_ONE as int, t)),
        spec_scale(spec_sky(), t),
    )
}

/// The background gradient for a ray that hits nothing.
pub fn background(ray: &Ray) -> (c: Vec3)
    ensures
        c == spec_background(*ray),
{
    let unit = ray.direction.to_unit();
    let t = crate::fixed::mul_fx(FX_HALF, add_fx(unit.y, FX_ONE));
    let white = Vec3 { x: FX_ONE, y: FX_ONE, z: FX_ONE };
    let sky = Vec3 { x: FX_HALF, y: 45875, z: FX_ONE };
    white.scale(crate::fixed::sub_fx(FX_ONE, t)).add(sky.scale(t))
}

/// Light transport for one ray: the nearest hit in `(T_MIN, i64::MAX)` is
/// scattered by its material and the result recursed on, multiplying
/// attenuations; a ray that hits nothing yields the background gradient; a
/// hit at or beyond `max_depth` bounces, or an absorbed ray, yields black.
/// Returns the color and the stream position after the draws.
pub open spec fn spec_compute_color<T: Hit>(
    ray: Ray,
    world: T,
    depth: int,
    max_depth: int,
    seed: u64,
    ctr: nat,
) -> (Vec3, nat)
    decreases max_depth - depth,
{
    match world.hit_spec(ray, T_MIN as int, i64::MAX as int) {
        Some(hit) => {
            if depth >= max_depth {
                (spec_black(), ctr)
            } else {
                let (srec, c2) = hit.material.scatter_spec(ray, hit.point, hit.normal, seed, ctr);
                match srec {
                    Some(s) => {
                        let (rest, c3) = spec_compute_color(
                            s.ray,
                            world,
                            depth + 1,
                            max_depth,
                            seed,
                            c2,
                        );
                        (spec_mul(s.attenuation, rest), c3)
                    },
                    None => (spec_black(), c2),
                }
            }
        },
        None => (spec_background(ray), ctr),
    }
}

/// Light transport for one ray (see `spec_compute_color`).
pub fn compute_color<T: Hit>(
    ray: &Ray,
    world: &T,
    depth: u32,
    max_depth: u32,
    rng: &mut RandSource,
) -> (c: Vec3)
    ensures
        ({
            let (sc, c2) = spec_compute_color(
                *ray,
                *world,
                depth as int,
                max_depth as int,
                old(rng).seed(),
                old(rng).drawn(),
            );
            c == sc && final(rng).seed() == old(rng).seed() && final(rng).drawn() == c2
        }),
    decreases max_depth - depth,
{
    match world.hit(ray, T_MIN, i64::MAX) {
        Some(hit) => {
            if depth >= max_depth {
                Vec3 { x: 0, y: 0, z: 0 }
            } else {
                match hit.material.scatter(ray, hit.point, hit.normal, rng) {
                    Some(s) => {
                        let rest = compute_color(&s.ray, world, depth + 1, max_depth, rng);
                        s.attenuation.mul(rest)
                    },
                    None => Vec3 { x: 0, y: 0, z: 0 },
                }
            }
        },
        None => background(ray),
    }
}

/// One anti-aliasing sample of pixel `(x, y)`: jitter the image coordinates
/// by a unit draw each, build the camera ray, and trace it from depth 0.
pub open spec fn spec_sample_color<T: Hit>(
    cam: Camera,
    world: T,
    x: int,
    y: int,
    width: int,
    height: int,
    max_depth: int,
    seed: u64,
    ctr: nat,
) -> (Vec3, nat) {
    let u = fx_div(
        fx_add(clip(x * FX_ONE), spec_unit_sample(seed, ctr)),
        clip(width * FX_ONE),
    );
    let v = fx_div(
        fx_add(clip(y * FX_ONE), spec_unit_sample(seed, (ctr + 1) as nat)),
        clip(height * FX_ONE),
    );
    let (ray, c2) = spec_camera_ray(cam, u, v, seed, (ctr + 2) as nat);
    spec_compute_color(ray, world, 0, max_depth, seed, c2)
}

/// The color accumulated over the first `n` samples of pixel `(x, y)`.
pub open spec fn spec_pixel_accum<T: Hit>(
    cam: Camera,
    world: T,
    x: int,
    y: int,
    width: int,
    height: int,
    max_depth: int,
    n: nat,
    seed: u64,
    ctr: nat,
) -> (Vec3, nat)
    decreases n,
{
    if n == 0 {
        (spec_black(), ctr)
    } else {
        let (acc, c2) = spec_pixel_accum(
            cam,
            world,
            x,
            y,
            width,
            height,
            max_depth,
            (n - 1) as nat,
            seed,
            ctr,
        );
        let (s, c3) = spec_sample_color(cam, world, x, y, width, height, max_depth, seed, c2);
        (spec_add(acc, s), c3)
    }
}

/// The finished pixel `(x, y)`: the accumulated color averaged over the
/// sample count, gamma-corrected and quantized to 8 bits per channel.
pub open spec fn spec_render_pixel<T: Hit>(
    cam: Camera,
    world: T,
    x: int,
    y: int,
    width: int,
    height: int,
    samples: nat,
    max_depth: int,
    seed: u64,
    ctr: nat,
) -> ((u8, u8, u8), nat) {
    let (acc, c2) = spec_pixel_accum(
        cam,
        world,
        x,
        y,
        width,
        height,
        max_depth,
        samples,
        seed,
        ctr,
    );
    let col = spec_scale_div(acc, clip(samples * FX_ONE));
    let pixel = (
        spec_quant_channel(fx_sqrt(col.x as int)) as u8,
        spec_quant_channel(fx_sqrt(col.y as int)) as u8,
        spec_quant_channel(fx_sqrt(col.z as int)) as u8,
    );
    (pixel, c2)
}

/// One anti-aliasing sample of pixel `(x, y)` (see `spec_sample_color`).
fn sample_color<T: Hit>(
    cam: &Camera,
    world: &T,
    x: usize,
    y: usize,
    width: usize,
    height: usize,
    max_depth: u32,
    rng: &mut RandSource,
) -> (c: Vec3)
    requires
        x < width,
        y < height,
        width <= 0xffff_ffff,
        height <= 0xffff_ffff,
    ensures
        ({
            let (sc, c2) = spec_sample_color(
                *cam,
                *world,
                x as int,
                y as int,
                width as int,
                height as int,
                max_depth as int,
                old(rng).seed(),
                old(rng).drawn(),
            );
            c == sc && final(rng).seed() == old(rng).seed() && final(rng).drawn() == c2
        }),
{
    let u = div_fx(add_fx((x as i64) * FX_ONE, rng.gen_unit()), (width as i64) * FX_ONE);
    let v = div_fx(add_fx((y as i64) * FX_ONE, rng.gen_unit()), (height as i64) * FX_ONE);
    let ray = cam.ray(u, v, rng);
    compute_color(&ray, world, 0, max_depth, rng)
}

/// Render one pixel (see `spec_render_pixel`).
#[verifier::rlimit(60)]
fn render_pixel<T: Hit>(
    cam: &Camera,
    world: &T,
    x: usize,
    y: usize,
    width: usize,
    height: usize,
    samples: u32,
    max_depth: u32,
    rng: &mut RandSource,
) -> (p: (u8, u8, u8))
    requires
        x < width,
        y < height,
        width <= 0xffff_ffff,
        height <= 0xffff_ffff,
    ensures
        ({
            let (sp, c2) = spec_render_pixel(
                *cam,
                *world,
                x as int,
                y as int,
                width as int,
                height as int,
                samples as nat,
                max_depth as int,
                old(rng).seed(),
                old(rng).drawn(),
            );
            p == sp && final(rng).seed() == old(rng).seed() && final(rng).drawn() == c2
        }),
{
    let mut col = Vec3 { x: 0, y: 0, z: 0 };
    let mut s: u32 = 0;
    while s < samples
        invariant
            s <= samples,
            x < width <= 0xffff_ffff,
            y < height <= 0xffff_ffff,
            rng.seed() == old(rng).seed(),
            ({
                let (acc, c2) = spec_pixel_accum(
                    *cam,
                    *world,
                    x as int,
                    y as int,
                    width as int,
                    height as int,
                    max_depth as int,
                    s as nat,
                    old(rng).seed(),
                    old(rng).drawn(),
                );
                col == acc && rng.drawn() == c2
            }),
        decreases samples - s,
    {
        let c = sample_color(cam, world, x, y, width, height, max_depth, rng);
        col = col.add(c);
        s = s + 1;
    }
    let avg = col.scale_div((samples as i64) * FX_ONE);
    let g = Rgb::from(avg).gamma_correct();
    g.quantize()
}

/// The pixel grid from linear index `idx` on, in the scan order of the
/// image: rows from the top of the image (the highest y) down, pixels left
/// to right within a row.
pub open spec fn spec_render_from<T: Hit>(
    cam: Camera,
    world: T,
    width: nat,
    height: nat,
    samples: nat,
    max_depth: int,
    idx: nat,
    seed: u64,
    ctr: nat,
) -> (Seq<(u8, u8, u8)>, nat)
    decreases width * height - idx,
{
    if idx >= width * height {
        (Seq::empty(), ctr)
    } else {
        let x = idx % width;
        let y = height - 1 - idx / width;
        let (p, c2) = spec_render_pixel(
            cam,
            world,
            x as int,
            y,
            width as int,
            height as int,
            samples,
            max_depth,
            seed,
            ctr,
        );
        let (rest, c3) = spec_render_from(
            cam,
            world,
            width,
            height,
            samples,
            max_depth,
            idx + 1,
            seed,
            c2,
        );
        (seq![p] + rest, c3)
    }
}

/// The full render: every pixel of a `width` by `height` image, in scan
/// order, starting at the source's current stream position.
pub open spec fn spec_render<T: Hit>(
    cam: Camera,
    world: T,
    width: nat,
    height: nat,
    samples: nat,
    max_depth: int,
    seed: u64,
    ctr: nat,
) -> (Seq<(u8, u8, u8)>, nat) {
    spec_render_from(cam, world, width, height, samples, max_depth, 0, seed, ctr)
}

/// Render the scene: `samples` jittered rays per pixel, averaged,
/// gamma-corrected and quantized; rows are emitted from the top of the
/// image down. The result and the draws consumed are pinned exactly by
/// `spec_render`, so a seed determines the image.
#[verifier::rlimit(100)]
pub fn render<T: Hit>(
    cam: &Camera,
    world: &T,
    width: usize,
    height: usize,
    samples: u32,
    max_depth: u32,
    rng: &mut RandSource,
) -> (pixels: Vec<(u8, u8, u8)>)
    requires
        (width as int) * (height as int) <= usize::MAX as int,
        width <= 0xffff_ffff,
        height <= 0xffff_ffff,
    ensures
        ({
            let (ps, c2) = spec_render(
                *cam,
                *world,
                width as nat,
                height as nat,
                samples as nat,
                max_depth as int,
                old(rng).seed(),
                old(rng).drawn(),
            );
            pixels@ == ps && final(rng).seed() == old(rng).seed() && final(rng).drawn() == c2
        }),
{
    let total = width * height;
    let mut pixels: Vec<(u8, u8, u8)> = Vec::new();
    let mut idx: usize = 0;
    while idx < total
        invariant
            idx <= total,
            total == width * height,
            width <= 0xffff_ffff,
            height <= 0xffff_ffff,
            (width as int) * (height as int) <= usize::MAX as int,
            pixels@.len() == idx,
            rng.seed() == old(rng).seed(),
            ({
                let full = spec_render_from(
                    *cam,
                    *world,
                    width as nat,
                    height as nat,
                    samples as nat,
                    max_depth as int,
                    0,
                    old(rng).seed(),
                    old(rng).drawn(),
                );
                let suffix = spec_render_from(
                    *cam,
                    *world,
                    width as nat,
                    height as nat,
                    samples as nat,
                    max_depth as int,
                    idx as nat,
                    old(rng).seed(),
                    rng.drawn(),
                );
                full.0 == pixels@ + suffix.0 && full.1 == suffix.1
            }),
        decreases total - idx,
    {
        proof {
            assert(width > 0) by (nonlinear_arith)
                requires
                    (idx as int) < (width as int) * (height as int),
                    idx >= 0,
                    width >= 0,
                    height >= 0,
            ;
            assert((idx as int) % (width as int) < width as int) by (nonlinear_arith)
                requires
                    width > 0,
                    idx >= 0,
            ;
            assert((idx as int) / (width as int) < height as int) by (nonlinear_arith)
                requires
                    width > 0,
                    height > 0,
                    idx >= 0,
                    (idx as int) < (width as int) * (height as int),
            ;
        }
        let x = idx % width;
        let y = height - 1 - idx / width;
        let ghost pre = rng.drawn();
        let ghost pixels_old = pixels@;
        let p = render_pixel(cam, world, x, y, width, height, samples, max_depth, rng);
        pixels.push(p);
        proof {
            let full = spec_render_from(
                *cam,
                *world,
                width as nat,
                height as nat,
                samples as nat,
                max_depth as int,
                0,
                old(rng).seed(),
                old(rng).drawn(),
            );
            let suffix = spec_render_from(
                *cam,
                *world,
                width as nat,
                height as nat,
                samples as nat,
                max_depth as int,
                idx as nat,
                old(rng).seed(),
                pre,
            );
            let next = spec_render_from(
                *cam,
                *world,
                width as nat,
                height as nat,
                samples as nat,
                max_depth as int,
                (idx + 1) as nat,
                old(rng).seed(),
                rng.drawn(),
            );
            assert(suffix.0 == seq![p] + next.0 && suffix.1 == next.1);
            assert((pixels_old + (seq![p] + next.0)) =~= ((pixels_old + seq![p]) + next.0));
            assert(full.0 == pixels@ + next.0);
        }
        idx = idx + 1;
    }
    proof {
        let suffix = spec_render_from(
            *cam,
            *world,
            width as nat,
            height as nat,
            samples as nat,
            max_depth as int,
            idx as nat,
            old(rng).seed(),
            rng.drawn(),
        );
        assert(idx as nat >= (width as nat) * (height as nat));
        assert(suffix.0 =~= Seq::<(u8, u8, u8)>::empty());
        assert(pixels@ + suffix.0 =~= pixels@);
    }
    pixels
}

} // verus!
