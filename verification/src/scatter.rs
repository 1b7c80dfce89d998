//! Material scattering models: diffuse, metallic and dielectric surfaces.

use vstd::prelude::*;
use crate::fixed::{FX_ONE, fx_add, fx_sub, fx_mul, fx_div, fx_sqrt, add_fx, sub_fx, mul_fx, div_fx, sqrt_fx};
use crate::ray::Ray;
use crate::rng::{RandSource, SAMPLE_TRIES, spec_unit_sample};
use crate::vec3::{Vec3, dot, spec_dot, spec_add, spec_sub, spec_scale, spec_to_unit, spec_len, spec_squared_len};

verus! {

/// The outcome of a material interaction: an attenuation color and the
/// scattered outgoing ray.
#[derive(Clone, Copy, PartialEq, Eq, Structural, Debug)]
pub struct ScatterRecord {
    pub attenuation: Vec3,
    pub ray: Ray,
}

/// A diffuse surface with a base color.
#[derive(Clone, Copy, PartialEq, Eq, Structural, Debug)]
pub struct Lambertian {
    pub albedo: Vec3,
}

/// A metallic surface: mirror reflection, optionally fuzzed by a roughness
/// in [0, 1].
#[derive(Clone, Copy, PartialEq, Eq, Structural, Debug)]
pub struct Reflective {
    pub albedo: Vec3,
    pub fuzz: i64,
}

/// A clear refractive surface with a refraction index.
#[derive(Clone, Copy, PartialEq, Eq, Structural, Debug)]
pub struct Dielectric {
    pub refraction_index: i64,
}

/// The closed set of materials a surface can carry.
#[derive(Clone, Copy, PartialEq, Eq, Structural, Debug)]
pub enum Material {
    Lambertian(Lambertian),
    Reflective(Reflective),
    Dielectric(Dielectric),
}

/// Mirror reflection of `v` about the normal: `v - 2*dot(v, n)*n`.
pub open spec fn spec_reflect(v: Vec3, normal: Vec3) -> Vec3 {
    spec_sub(v, spec_scale(normal, fx_add(spec_dot(v, normal), spec_dot(v, normal))))
}

/// Mirror reflection of `v` about the normal: `v - 2*dot(v, n)*n`.
pub fn reflect(v: Vec3, normal: Vec3) -> (r: Vec3)
    ensures
        r == spec_reflect(v, normal),
{
    let d = dot(v, normal);
    v.sub(normal.scale(add_fx(d, d)))
}

/// Snell's-law refraction of `v` through a surface with outward normal
/// `normal` and refraction ratio `ni_over_nt`. With `u` the unit vector of
/// `v` and `dt = dot(u, normal)`, the refracted direction
/// `ni_over_nt*(u - normal*dt) - normal*sqrt(disc)` exists only when
/// `disc = 1 - ni_over_nt^2*(1 - dt^2)` is positive; otherwise the ray is
/// totally internally reflected.
pub open spec fn spec_refract(v: Vec3, normal: Vec3, ni_over_nt: int) -> Option<Vec3> {
    let unit_v = spec_to_unit(v);
    let dt = spec_dot(unit_v, normal);
    let disc = fx_sub(
        FX_ONE as int,
        fx_mul(fx_mul(ni_over_nt, ni_over_nt), fx_sub(FX_ONE as int, fx_mul(dt, dt))),
    );
    if disc > 0 {
        Some(
            spec_sub(
                spec_scale(spec_sub(unit_v, spec_scale(normal, dt)), ni_over_nt),
                spec_scale(normal, fx_sqrt(disc)),
            ),
        )
    } else {
        None
    }
}

/// Snell's-law refraction; `None` on total internal reflection.
pub fn refract(v: Vec3, normal: Vec3, ni_over_nt: i64) -> (r: Option<Vec3>)
    ensures
        r == spec_refract(v, normal, ni_over_nt as int),
{
    let unit_v = v.to_unit();
    let dt = dot(unit_v, normal);
    let disc = sub_fx(
        FX_ONE,
        mul_fx(mul_fx(ni_over_nt, ni_over_nt), sub_fx(FX_ONE, mul_fx(dt, dt))),
    );
    if disc > 0 {
        Some(unit_v.sub(normal.scale(dt)).scale(ni_over_nt).sub(normal.scale(sqrt_fx(disc))))
    } else {
        None
    }
}

/// Fifth power, by repeated fixed-point multiplication.
pub open spec fn spec_pow5(x: int) -> int {
    fx_mul(fx_mul(fx_mul(fx_mul(x, x), x), x), x)
}

/// Schlick's approximation of the Fresnel reflectance:
/// `r0 + (1 - r0)*(1 - cos)^5` with `r0 = ((1 - n)/(1 + n))^2`.
pub open spec fn spec_schlick(cos: int, refraction_index: int) -> int {
    let r0 = fx_div(
        fx_sub(FX_ONE as int, refraction_index),
        fx_add(FX_ONE as int, refraction_index),
    );
    let r1 = fx_mul(r0, r0);
    fx_add(r1, fx_mul(fx_sub(FX_ONE as int, r1), spec_pow5(fx_sub(FX_ONE as int, cos))))
}

/// Schlick's approximation of the Fresnel reflectance.
pub fn schlick(cos: i64, refraction_index: i64) -> (r: i64)
    ensures
        r as int == spec_schlick(cos as int, refraction_index as int),
{
    let r0 = div_fx(sub_fx(FX_ONE, refraction_index), add_fx(FX_ONE, refraction_index));
    let r1 = mul_fx(r0, r0);
    let omc = sub_fx(FX_ONE, cos);
    let p5 = mul_fx(mul_fx(mul_fx(mul_fx(omc, omc), omc), omc), omc);
    add_fx(r1, mul_fx(sub_fx(FX_ONE, r1), p5))
}

/// The candidate the ball sampler builds from three consecutive stream
/// positions: each component is `2*u - 1` for a unit sample `u`.
pub open spec fn spec_ball_candidate(seed: u64, ctr: nat) -> Vec3 {
    Vec3 {
        x: (2 * spec_unit_sample(seed, ctr) - FX_ONE) as i64,
        y: (2 * spec_unit_sample(seed, ctr + 1) - FX_ONE) as i64,
        z: (2 * spec_unit_sample(seed, ctr + 2) - FX_ONE) as i64,
    }
}

/// Rejection sampling of a point in the open unit ball: candidates with each
/// component uniform in [-1, 1) are drawn until one has squared length below
/// 1; after `tries` rejections the sampler falls back to the zero vector
/// (which lies in the ball). Returns the point and the stream position after
/// the draws.
pub open spec fn spec_sphere_sample_from(seed: u64, ctr: nat, tries: nat) -> (Vec3, nat)
    decreases tries,
{
    if tries == 0 {
        (Vec3 { x: 0, y: 0, z: 0 }, ctr)
    } else {
        let v = spec_ball_candidate(seed, ctr);
        if spec_squared_len(v) < FX_ONE {
            (v, (ctr + 3) as nat)
        } else {
            spec_sphere_sample_from(seed, (ctr + 3) as nat, (tries - 1) as nat)
        }
    }
}

/// The ball sample taken at stream position `ctr`, with the standard number
/// of tries.
pub open spec fn spec_sphere_sample(seed: u64, ctr: nat) -> (Vec3, nat) {
    spec_sphere_sample_from(seed, ctr, SAMPLE_TRIES as nat)
}

/// A random point in the open unit ball.
pub fn rand_point_in_unit_sphere(rng: &mut RandSource) -> (v: Vec3)
    ensures
        ({
            let (sv, c2) = spec_sphere_sample(old(rng).seed(), old(rng).drawn());
            v == sv && final(rng).seed() == old(rng).seed() && final(rng).drawn() == c2
        }),
{
    sphere_sample_from(rng, SAMPLE_TRIES)
}

/// One round of the ball sampler's rejection loop.
fn sphere_sample_from(rng: &mut RandSource, tries: u32) -> (v: Vec3)
    ensures
        ({
            let (sv, c2) = spec_sphere_sample_from(old(rng).seed(), old(rng).drawn(), tries as nat);
            v == sv && final(rng).seed() == old(rng).seed() && final(rng).drawn() == c2
        }),
    decreases tries,
{
    if tries == 0 {
        Vec3 { x: 0, y: 0, z: 0 }
    } else {
        let x = 2 * rng.gen_unit() - FX_ONE;
        let y = 2 * rng.gen_unit() - FX_ONE;
        let z = 2 * rng.gen_unit() - FX_ONE;
        let v = Vec3 { x: x, y: y, z: z };
        if v.squared_len() < FX_ONE {
            v
        } else {
            sphere_sample_from(rng, tries - 1)
        }
    }
}

/// The response of a material to an incoming ray at a surface point: an
/// attenuation and a scattered ray, or `None` for full absorption. The
/// result and the number of random draws consumed are pinned exactly by the
/// implementor's `scatter_spec`.
pub trait Scatter {
    /// The mathematical model of `scatter`: the record produced (if any) and
    /// the stream position after the draws it makes.
    spec fn scatter_spec(&self, ray: Ray, point: Vec3, normal: Vec3, seed: u64, ctr: nat) -> (
        Option<ScatterRecord>,
        nat,
    );

    /// Scatter the incoming ray at `point` with surface normal `normal`.
    fn scatter(&self, ray: &Ray, point: Vec3, normal: Vec3, rng: &mut RandSource) -> (r: Option<
        ScatterRecord,
    >)
        ensures
            ({
                let (rec, c2) = self.scatter_spec(
                    *ray,
                    point,
                    normal,
                    old(rng).seed(),
                    old(rng).drawn(),
                );
                r == rec && final(rng).seed() == old(rng).seed() && final(rng).drawn() == c2
            }),
    ;
}

impl Scatter for Lambertian {
    /// Always scatters: the outgoing direction is the normal perturbed by a
    /// random point in the unit ball, the attenuation is the albedo.
    open spec fn scatter_spec(&self, ray: Ray, point: Vec3, normal: Vec3, seed: u64, ctr: nat) -> (
        Option<ScatterRecord>,
        nat,
    ) {
        let (p, c2) = spec_sphere_sample(seed, ctr);
        let target = spec_add(spec_add(point, normal), p);
        (
            Some(
                ScatterRecord {
                    attenuation: self.albedo,
                    ray: Ray { origin: point, direction: spec_sub(target, point) },
                },
            ),
            c2,
        )
    }

    fn scatter(&self, ray: &Ray, point: Vec3, normal: Vec3, rng: &mut RandSource) -> (r: Option<
        ScatterRecord,
    >)
        ensures
            ({
                let (rec, c2) = self.scatter_spec(
                    *ray,
                    point,
                    normal,
                    old(rng).seed(),
                    old(rng).drawn(),
                );
                r == rec && final(rng).seed() == old(rng).seed() && final(rng).drawn() == c2
            }),
    {
        let target = point.add(normal).add(rand_point_in_unit_sphere(rng));
        Some(
            ScatterRecord {
                attenuation: self.albedo,
                ray: Ray { origin: point, direction: target.sub(point) },
            },
        )
    }
}

impl Scatter for Reflective {
    /// Reflects the unit incoming direction about the normal and perturbs it
    /// by `fuzz` times a random ball point; scatters only while the
    /// unperturbed reflection points away from the surface, else absorbs
    /// (drawing nothing).
    open spec fn scatter_spec(&self, ray: Ray, point: Vec3, normal: Vec3, seed: u64, ctr: nat) -> (
        Option<ScatterRecord>,
        nat,
    ) {
        let reflected = spec_reflect(spec_to_unit(ray.direction), normal);
        if spec_dot(reflected, normal) > 0 {
            let (p, c2) = spec_sphere_sample(seed, ctr);
            (
                Some(
                    ScatterRecord {
                        attenuation: self.albedo,
                        ray: Ray {
                            origin: point,
                            direction: spec_add(reflected, spec_scale(p, self.fuzz as int)),
                        },
                    },
                ),
                c2,
            )
        } else {
            (None, ctr)
        }
    }

    fn scatter(&self, ray: &Ray, point: Vec3, normal: Vec3, rng: &mut RandSource) -> (r: Option<
        ScatterRecord,
    >)
        ensures
            ({
                let (rec, c2) = self.scatter_spec(
                    *ray,
                    point,
                    normal,
                    old(rng).seed(),
                    old(rng).drawn(),
                );
                r == rec && final(rng).seed() == old(rng).seed() && final(rng).drawn() == c2
            }),
    {
        let reflected = reflect(ray.direction.to_unit(), normal);
        if dot(reflected, normal) > 0 {
            let p = rand_point_in_unit_sphere(rng);
            Some(
                ScatterRecord {
                    attenuation: self.albedo,
                    ray: Ray { origin: point, direction: reflected.add(p.scale(self.fuzz)) },
                },
            )
        } else {
            None
        }
    }
}

impl Scatter for Dielectric {
    /// Attempts Snell's-law refraction through the surface, choosing between
    /// the refracted and the reflected ray by comparing one uniform draw with
    /// the Schlick reflectance; on total internal reflection it reflects
    /// without drawing. The attenuation is always opaque white.
    open spec fn scatter_spec(&self, ray: Ray, point: Vec3, normal: Vec3, seed: u64, ctr: nat) -> (
        Option<ScatterRecord>,
        nat,
    ) {
        let d = spec_dot(ray.direction, normal);
        let len = spec_len(ray.direction);
        let outward_normal = if d > 0 {
            spec_scale(normal, -FX_ONE as int)
        } else {
            normal
        };
        let ni_over_nt = if d > 0 {
            self.refraction_index as int
        } else {
            fx_div(FX_ONE as int, self.refraction_index as int)
        };
        let cos = if d > 0 {
            fx_div(fx_mul(self.refraction_index as int, d), len)
        } else {
            fx_div(fx_sub(0, d), len)
        };
        let attenuation = Vec3 { x: FX_ONE, y: FX_ONE, z: FX_ONE };
        match spec_refract(ray.direction, outward_normal, ni_over_nt) {
            Some(refracted) => {
                let prob = spec_schlick(cos, self.refraction_index as int);
                let u = spec_unit_sample(seed, ctr);
                let dir = if u >= prob {
                    refracted
                } else {
                    spec_reflect(ray.direction, normal)
                };
                (
                    Some(
                        ScatterRecord {
                            attenuation: attenuation,
                            ray: Ray { origin: point, direction: dir },
                        },
                    ),
                    (ctr + 1) as nat,
                )
            },
            None => (
                Some(
                    ScatterRecord {
                        attenuation: attenuation,
                        ray: Ray {
                            origin: point,
                            direction: spec_reflect(ray.direction, normal),
                        },
                    },
                ),
                ctr,
            ),
        }
    }

    fn scatter(&self, ray: &Ray, point: Vec3, normal: Vec3, rng: &mut RandSource) -> (r: Option<
        ScatterRecord,
    >)
        ensures
            ({
                let (rec, c2) = self.scatter_spec(
                    *ray,
                    point,
                    normal,
                    old(rng).seed(),
                    old(rng).drawn(),
                );
                r == rec && final(rng).seed() == old(rng).seed() && final(rng).drawn() == c2
            }),
    {
        let d = dot(ray.direction, normal);
        let len = ray.direction.len();
        let outward_normal = if d > 0 {
            normal.scale(-FX_ONE)
        } else {
            normal
        };
        let ni_over_nt = if d > 0 {
            self.refraction_index
        } else {
            div_fx(FX_ONE, self.refraction_index)
        };
        let cos = if d > 0 {
            div_fx(mul_fx(self.refraction_index, d), len)
        } else {
            div_fx(sub_fx(0, d), len)
        };
        let attenuation = Vec3 { x: FX_ONE, y: FX_ONE, z: FX_ONE };
        match refract(ray.direction, outward_normal, ni_over_nt) {
            Some(refracted) => {
                let prob = schlick(cos, self.refraction_index);
                let u = rng.gen_unit();
                let dir = if u >= prob {
                    refracted
                } else {
                    reflect(ray.direction, normal)
                };
                Some(
                    ScatterRecord {
                        attenuation: attenuation,
                        ray: Ray { origin: point, direction: dir },
                    },
                )
            },
            None => Some(
                ScatterRecord {
                    attenuation: attenuation,
                    ray: Ray { origin: point, direction: reflect(ray.direction, normal) },
                },
            ),
        }
    }
}

impl Scatter for Material {
    /// Dispatch to the wrapped material's model.
    open spec fn scatter_spec(&self, ray: Ray, point: Vec3, normal: Vec3, seed: u64, ctr: nat) -> (
        Option<ScatterRecord>,
        nat,
    ) {
        match *self {
            Material::Lambertian(m) => m.scatter_spec(ray, point, normal, seed, ctr),
            Material::Reflective(m) => m.scatter_spec(ray, point, normal, seed, ctr),
            Material::Dielectric(m) => m.scatter_spec(ray, point, normal, seed, ctr),
        }
    }

    fn scatter(&self, ray: &Ray, point: Vec3, normal: Vec3, rng: &mut RandSource) -> (r: Option<
        ScatterRecord,
    >)
        ensures
            ({
                let (rec, c2) = self.scatter_spec(
                    *ray,
                    point,
                    normal,
                    old(rng).seed(),
                    old(rng).drawn(),
                );
                r == rec && final(rng).seed() == old(rng).seed() && final(rng).drawn() == c2
            }),
    {
        match self {
            Material::Lambertian(m) => m.scatter(ray, point, normal, rng),
            Material::Reflective(m) => m.scatter(ray, point, normal, rng),
            Material::Dielectric(m) => m.scatter(ray, point, normal, rng),
        }
    }
}

} // verus!
