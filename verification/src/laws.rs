//! Properties of the tracer, proved from the models that the executable
//! functions are pinned to.

use vstd::prelude::*;
use crate::camera::Camera;
use crate::fixed::{
    FX_ONE, fx_add, fx_mul, iabs, tdiv, lemma_abs_mul_bound, lemma_abs_scale, lemma_fx_div_approx,
    lemma_fx_mul_approx, lemma_fx_square_nonneg, lemma_tdiv_rem,
};
use crate::hit::{Hit, HitRecord};
use crate::ray::{Ray, spec_point_at};
use crate::scatter::{Scatter, spec_reflect};
use crate::sphere::{Sphere, spec_sphere_record};
use crate::trace::{T_MIN, spec_background, spec_black, spec_compute_color, spec_render};
use crate::vec3::{Vec3, spec_dot, spec_mul, spec_scale, spec_sub, spec_to_unit, spec_len, spec_squared_len};

verus! {

/// A vector whose fixed-point dot product with itself is exactly 1 has
/// components of magnitude at most 1, and the exact sum of its squared
/// components overshoots `FX_ONE^2` by less than the three rounding rests.
pub proof fn lemma_unit_vec_bounds(n: Vec3)
    requires
        spec_dot(n, n) == FX_ONE as int,
    ensures
        iabs(n.x as int) <= FX_ONE as int,
        iabs(n.y as int) <= FX_ONE as int,
        iabs(n.z as int) <= FX_ONE as int,
        (FX_ONE as int) * (FX_ONE as int) <= (n.x as int) * (n.x as int) + (n.y as int) * (n.y
            as int) + (n.z as int) * (n.z as int) < (FX_ONE as int) * (FX_ONE as int) + 3 * (FX_ONE
            as int),
{
    let s = FX_ONE as int;
    let nx = n.x as int;
    let ny = n.y as int;
    let nz = n.z as int;
    let wx = fx_mul(nx, nx);
    let wy = fx_mul(ny, ny);
    let wz = fx_mul(nz, nz);
    lemma_fx_square_nonneg(nx);
    lemma_fx_square_nonneg(ny);
    lemma_fx_square_nonneg(nz);
    // Sums of nonnegative terms never shrink below a summand, so each
    // truncated square is at most the whole dot product.
    assert(fx_add(wx, wy) >= wx && fx_add(wx, wy) >= wy);
    assert(wx <= s && wy <= s && wz <= s);
    // Each truncated square is therefore unclipped.
    assert(nx * nx >= 0 && ny * ny >= 0 && nz * nz >= 0) by (nonlinear_arith);
    lemma_tdiv_rem(nx * nx, s);
    lemma_tdiv_rem(ny * ny, s);
    lemma_tdiv_rem(nz * nz, s);
    assert(wx == tdiv(nx * nx, s) && wy == tdiv(ny * ny, s) && wz == tdiv(nz * nz, s));
    // From w <= 1 the component squares are at most 1*1 + rest.
    assert(nx * nx <= s * wx + s && ny * ny <= s * wy + s && nz * nz <= s * wz + s);
    assert(iabs(nx) <= s) by (nonlinear_arith)
        requires
            nx * nx <= s * s + s,
            s == 65536,
    ;
    assert(iabs(ny) <= s) by (nonlinear_arith)
        requires
            ny * ny <= s * s + s,
            s == 65536,
    ;
    assert(iabs(nz) <= s) by (nonlinear_arith)
        requires
            nz * nz <= s * s + s,
            s == 65536,
    ;
    // The truncated squares are unclipped and sum to 1 without saturating.
    assert(wx + wy + wz == s);
    assert(nx * nx + ny * ny + nz * nz == s * (wx + wy + wz) + (nx * nx - s * wx) + (ny * ny - s
        * wy) + (nz * nz - s * wz));
}

/// The truncated dot product is within three rounding rests of the exact
/// scaled one, when one side's components are bounded by `ba` and the
/// other's by one.
proof fn lemma_dot_approx(a: Vec3, b: Vec3, ba: int)
    requires
        iabs(a.x as int) <= ba,
        iabs(a.y as int) <= ba,
        iabs(a.z as int) <= ba,
        iabs(b.x as int) <= FX_ONE as int,
        iabs(b.y as int) <= FX_ONE as int,
        iabs(b.z as int) <= FX_ONE as int,
        1 <= ba <= 0x100000000000,
    ensures
        iabs(spec_dot(a, b)) <= 3 * ba,
        iabs((FX_ONE as int) * spec_dot(a, b) - ((a.x as int) * (b.x as int) + (a.y as int) * (b.y
            as int) + (a.z as int) * (b.z as int))) <= 3 * (FX_ONE as int) - 3,
{
    let s = FX_ONE as int;
    lemma_abs_mul_bound(a.x as int, b.x as int, ba, s);
    lemma_abs_mul_bound(a.y as int, b.y as int, ba, s);
    lemma_abs_mul_bound(a.z as int, b.z as int, ba, s);
    lemma_fx_mul_approx(a.x as int, b.x as int);
    lemma_fx_mul_approx(a.y as int, b.y as int);
    lemma_fx_mul_approx(a.z as int, b.z as int);
    let mx = fx_mul(a.x as int, b.x as int);
    let my = fx_mul(a.y as int, b.y as int);
    let mz = fx_mul(a.z as int, b.z as int);
    lemma_abs_scale(s, mx);
    lemma_abs_scale(s, my);
    lemma_abs_scale(s, mz);
    assert(iabs(mx) <= ba && iabs(my) <= ba && iabs(mz) <= ba);
    assert(spec_dot(a, b) == mx + my + mz);
}

/// Each component of a truncated scaling is within one rounding rest of the
/// exact scaled product, when the vector's components are bounded by one.
proof fn lemma_scale_approx(b: Vec3, k: int, bk: int)
    requires
        iabs(b.x as int) <= FX_ONE as int,
        iabs(b.y as int) <= FX_ONE as int,
        iabs(b.z as int) <= FX_ONE as int,
        iabs(k) <= bk,
        1 <= bk <= 0x100000000000,
    ensures
        iabs(spec_scale(b, k).x as int) <= bk,
        iabs(spec_scale(b, k).y as int) <= bk,
        iabs(spec_scale(b, k).z as int) <= bk,
        iabs((FX_ONE as int) * (spec_scale(b, k).x as int) - (b.x as int) * k) < FX_ONE as int,
        iabs((FX_ONE as int) * (spec_scale(b, k).y as int) - (b.y as int) * k) < FX_ONE as int,
        iabs((FX_ONE as int) * (spec_scale(b, k).z as int) - (b.z as int) * k) < FX_ONE as int,
{
    let s = FX_ONE as int;
    lemma_abs_mul_bound(b.x as int, k, s, bk);
    lemma_abs_mul_bound(b.y as int, k, s, bk);
    lemma_abs_mul_bound(b.z as int, k, s, bk);
    lemma_fx_mul_approx(b.x as int, k);
    lemma_fx_mul_approx(b.y as int, k);
    lemma_fx_mul_approx(b.z as int, k);
    lemma_abs_scale(s, fx_mul(b.x as int, k));
    lemma_abs_scale(s, fx_mul(b.y as int, k));
    lemma_abs_scale(s, fx_mul(b.z as int, k));
}

/// The scalar heart of the reflection law, over the exact component
/// equations: if `d`, the scaled normal `t` and the reflected dot `res`
/// approximate their exact counterparts to within the stated rests, then
/// `res` is `-d` up to 9 units plus a relative term.
proof fn lemma_reflect_dot_core(
    vx: int,
    vy: int,
    vz: int,
    nx: int,
    ny: int,
    nz: int,
    tx: int,
    ty: int,
    tz: int,
    d: int,
    res: int,
)
    requires
        iabs(65536 * d - (vx * nx + vy * ny + vz * nz)) <= 3 * 65536 - 3,
        iabs(65536 * tx - nx * (2 * d)) < 65536,
        iabs(65536 * ty - ny * (2 * d)) < 65536,
        iabs(65536 * tz - nz * (2 * d)) < 65536,
        iabs(65536 * res - ((vx - tx) * nx + (vy - ty) * ny + (vz - tz) * nz)) <= 3 * 65536 - 3,
        65536 * 65536 <= nx * nx + ny * ny + nz * nz < 65536 * 65536 + 3 * 65536,
        iabs(nx) <= 65536,
        iabs(ny) <= 65536,
        iabs(nz) <= 65536,
    ensures
        iabs(res + d) <= 9 + 6 * iabs(d) / 65536,
{
    let s: int = 65536;
    let hh = nx * nx + ny * ny + nz * nz - s * s;
    let ee = (vx * nx + vy * ny + vz * nz) - s * d;
    let gg = ((vx - tx) * nx + (vy - ty) * ny + (vz - tz) * nz) - s * res;
    let fx_ = nx * (2 * d) - s * tx;
    let fy_ = ny * (2 * d) - s * ty;
    let fz_ = nz * (2 * d) - s * tz;
    let ff = fx_ * nx + fy_ * ny + fz_ * nz;

    // Expand the reflected products and regroup.
    assert((vx - tx) * nx == vx * nx - tx * nx && (vy - ty) * ny == vy * ny - ty * ny && (vz - tz)
        * nz == vz * nz - tz * nz) by (nonlinear_arith);
    assert(s * (tx * nx) == (s * tx) * nx && s * (ty * ny) == (s * ty) * ny && s * (tz * nz) == (s
        * tz) * nz) by (nonlinear_arith);
    assert((nx * (2 * d) - fx_) * nx == 2 * d * (nx * nx) - fx_ * nx && (ny * (2 * d) - fy_) * ny
        == 2 * d * (ny * ny) - fy_ * ny && (nz * (2 * d) - fz_) * nz == 2 * d * (nz * nz) - fz_
        * nz) by (nonlinear_arith);
    assert(2 * d * (nx * nx) + 2 * d * (ny * ny) + 2 * d * (nz * nz) == 2 * d * (s * s) + 2 * (d
        * hh)) by (nonlinear_arith)
        requires
            nx * nx + ny * ny + nz * nz == s * s + hh,
    ;
    assert(s * (tx * nx + ty * ny + tz * nz) == 2 * d * (s * s) + 2 * (d * hh) - ff);
    assert(s * (s * res) == s * (vx * nx + vy * ny + vz * nz) - s * (tx * nx + ty * ny + tz * nz)
        - s * gg);
    assert(s * (s * res) + s * (s * d) == s * ee + ff - s * gg - 2 * (d * hh)) by (nonlinear_arith)
        requires
            s * (s * res) == s * (vx * nx + vy * ny + vz * nz) - (2 * d * (s * s) + 2 * (d * hh)
                - ff) - s * gg,
            vx * nx + vy * ny + vz * nz == s * d + ee,
            s == 65536,
    ;

    // Bound the error terms.
    assert(iabs(fx_) <= s - 1 && iabs(fy_) <= s - 1 && iabs(fz_) <= s - 1);
    lemma_abs_mul_bound(fx_, nx, s - 1, s);
    lemma_abs_mul_bound(fy_, ny, s - 1, s);
    lemma_abs_mul_bound(fz_, nz, s - 1, s);
    assert(iabs(ff) <= 3 * (s - 1) * s);
    assert(0 <= hh < 3 * s);
    lemma_abs_mul_bound(d, hh, iabs(d), 3 * s - 1);
    lemma_abs_scale(s, ee);
    lemma_abs_scale(s, gg);
    let k = res + d;
    assert(s * (s * k) == s * ee + ff - s * gg - 2 * (d * hh)) by (nonlinear_arith)
        requires
            s * (s * res) + s * (s * d) == s * ee + ff - s * gg - 2 * (d * hh),
            k == res + d,
            s == 65536,
    ;
    assert(iabs(s * (s * k)) <= 9 * (s * s) + 6 * (iabs(d) * s));
    assert(iabs(s * (s * k)) == (s * s) * iabs(k)) by (nonlinear_arith)
        requires
            s == 65536,
    ;
    assert(iabs(k) <= 9 + 6 * iabs(d) / s) by (nonlinear_arith)
        requires
            (s * s) * iabs(k) <= 9 * (s * s) + 6 * (iabs(d) * s),
            iabs(k) >= 0,
            iabs(d) >= 0,
            s == 65536,
    ;
}

/// Shared facts about normalization: how each component of `to_unit(v)`
/// relates to the exact quotient, and the ranges everything lives in.
proof fn lemma_norm_setup(v: Vec3)
    requires
        iabs(v.x as int) <= 0x1000000000,
        iabs(v.y as int) <= 0x1000000000,
        iabs(v.z as int) <= 0x1000000000,
        spec_len(v) >= 8192,
    ensures
        spec_len(v) * spec_len(v) <= spec_squared_len(v) * (FX_ONE as int) < (spec_len(v) + 1) * (
        spec_len(v) + 1),
        0 <= (v.x as int) * (v.x as int) + (v.y as int) * (v.y as int) + (v.z as int) * (v.z
            as int) - (FX_ONE as int) * spec_squared_len(v) < 3 * (FX_ONE as int),
        iabs(spec_len(v) * (spec_to_unit(v).x as int) - (v.x as int) * (FX_ONE as int)) < spec_len(
            v,
        ),
        iabs(spec_len(v) * (spec_to_unit(v).y as int) - (v.y as int) * (FX_ONE as int)) < spec_len(
            v,
        ),
        iabs(spec_len(v) * (spec_to_unit(v).z as int) - (v.z as int) * (FX_ONE as int)) < spec_len(
            v,
        ),
        iabs(v.x as int) <= spec_len(v) + 445,
        iabs(v.y as int) <= spec_len(v) + 445,
        iabs(v.z as int) <= spec_len(v) + 445,
        iabs(spec_to_unit(v).x as int) <= FX_ONE + 3561,
        iabs(spec_to_unit(v).y as int) <= FX_ONE + 3561,
        iabs(spec_to_unit(v).z as int) <= FX_ONE + 3561,
        (spec_to_unit(v).x as int) * (v.x as int) >= 0,
        (spec_to_unit(v).y as int) * (v.y as int) >= 0,
        (spec_to_unit(v).z as int) * (v.z as int) >= 0,
{
    let s = FX_ONE as int;
    let vx = v.x as int;
    let vy = v.y as int;
    let vz = v.z as int;
    let sl = spec_squared_len(v);
    let ll = spec_len(v);

    // The squared length: three truncated squares, no saturation.
    lemma_abs_mul_bound(vx, vx, 0x1000000000, 0x1000000000);
    lemma_abs_mul_bound(vy, vy, 0x1000000000, 0x1000000000);
    lemma_abs_mul_bound(vz, vz, 0x1000000000, 0x1000000000);
    lemma_fx_mul_approx(vx, vx);
    lemma_fx_mul_approx(vy, vy);
    lemma_fx_mul_approx(vz, vz);
    assert(vx * vx >= 0 && vy * vy >= 0 && vz * vz >= 0) by (nonlinear_arith);
    lemma_tdiv_rem(vx * vx, s);
    lemma_tdiv_rem(vy * vy, s);
    lemma_tdiv_rem(vz * vz, s);
    let wx = fx_mul(vx, vx);
    let wy = fx_mul(vy, vy);
    let wz = fx_mul(vz, vz);
    assert(sl == wx + wy + wz);
    assert(0 <= vx * vx + vy * vy + vz * vz - s * sl < 3 * s);

    // The length is the floor square root of the scaled squared length.
    assert(sl > 0);
    assert(ll == crate::fixed::sqrt_floor(sl * s));
    crate::fixed::lemma_sqrt_floor(sl * s);

    // Component bounds from the squared length.
    assert(vx * vx <= s * sl + 3 * s && vy * vy <= s * sl + 3 * s && vz * vz <= s * sl + 3 * s);
    assert(iabs(vx) <= ll + 445) by (nonlinear_arith)
        requires
            vx * vx <= s * sl + 3 * s,
            s * sl < (ll + 1) * (ll + 1),
            ll >= 0,
            s == 65536,
    ;
    assert(iabs(vy) <= ll + 445) by (nonlinear_arith)
        requires
            vy * vy <= s * sl + 3 * s,
            s * sl < (ll + 1) * (ll + 1),
            ll >= 0,
            s == 65536,
    ;
    assert(iabs(vz) <= ll + 445) by (nonlinear_arith)
        requires
            vz * vz <= s * sl + 3 * s,
            s * sl < (ll + 1) * (ll + 1),
            ll >= 0,
            s == 65536,
    ;

    // Each unit component divides by the length with a rest below one
    // divisor, and inherits the dividend's sign.
    assert(iabs(vx) * s <= 0x7fffffffffffffff * ll && iabs(vy) * s <= 0x7fffffffffffffff * ll
        && iabs(vz) * s <= 0x7fffffffffffffff * ll) by (nonlinear_arith)
        requires
            iabs(vx) <= 0x1000000000,
            iabs(vy) <= 0x1000000000,
            iabs(vz) <= 0x1000000000,
            ll >= 8192,
            s == 65536,
    ;
    lemma_fx_div_approx(vx, ll);
    lemma_fx_div_approx(vy, ll);
    lemma_fx_div_approx(vz, ll);
    let ux = spec_to_unit(v).x as int;
    let uy = spec_to_unit(v).y as int;
    let uz = spec_to_unit(v).z as int;
    assert(ux == crate::fixed::fx_div(vx, ll) && uy == crate::fixed::fx_div(vy, ll) && uz
        == crate::fixed::fx_div(vz, ll));

    // Unit components are at most a little above one.
    assert(iabs(ll * ux) <= iabs(vx) * s && iabs(ll * ux) == ll * iabs(ux)) by (nonlinear_arith)
        requires
            iabs(ll * ux - vx * s) < ll,
            iabs(ll * ux) <= iabs(vx) * s,
            ll >= 1,
    ;
    assert(iabs(ll * uy) == ll * iabs(uy) && iabs(ll * uz) == ll * iabs(uz)) by (nonlinear_arith)
        requires
            ll >= 1,
    ;
    assert(iabs(ux) <= s + 3561) by (nonlinear_arith)
        requires
            ll * iabs(ux) <= iabs(vx) * s,
            iabs(vx) <= ll + 445,
            ll >= 8192,
            s == 65536,
    ;
    assert(iabs(uy) <= s + 3561) by (nonlinear_arith)
        requires
            ll * iabs(uy) <= iabs(vy) * s,
            iabs(vy) <= ll + 445,
            ll >= 8192,
            s == 65536,
    ;
    assert(iabs(uz) <= s + 3561) by (nonlinear_arith)
        requires
            ll * iabs(uz) <= iabs(vz) * s,
            iabs(vz) <= ll + 445,
            ll >= 8192,
            s == 65536,
    ;

    // Signs agree, so the products are nonnegative.
    lemma_tdiv_rem(vx * s, ll);
    lemma_tdiv_rem(vy * s, ll);
    lemma_tdiv_rem(vz * s, ll);
    assert(ux * vx >= 0 && uy * vy >= 0 && uz * vz >= 0) by (nonlinear_arith)
        requires
            vx >= 0 ==> ux >= 0,
            vx < 0 ==> ux <= 0,
            vy >= 0 ==> uy >= 0,
            vy < 0 ==> uy <= 0,
            vz >= 0 ==> uz >= 0,
            vz < 0 ==> uz <= 0,
    ;
}

/// The scalar heart of the normalization-length law: from the component
/// division equations, the squared components of the unit vector sum to one
/// within a few hundred rounding units.
proof fn lemma_norm_len_core(
    vx: int,
    vy: int,
    vz: int,
    ux: int,
    uy: int,
    uz: int,
    sl: int,
    ll: int,
)
    requires
        ll >= 8192,
        65536 <= 8 * ll,
        iabs(ll * ux - vx * 65536) < ll,
        iabs(ll * uy - vy * 65536) < ll,
        iabs(ll * uz - vz * 65536) < ll,
        0 <= vx * vx + vy * vy + vz * vz - 65536 * sl < 3 * 65536,
        ll * ll <= sl * 65536 < (ll + 1) * (ll + 1),
        iabs(vx) <= ll + 445,
        iabs(vy) <= ll + 445,
        iabs(vz) <= ll + 445,
    ensures
        65536 * (65536 - 7) <= ux * ux + uy * uy + uz * uz <= 65536 * (65536 + 247),
{
    let s: int = 65536;
    let rx = vx * s - ll * ux;
    let ry = vy * s - ll * uy;
    let rz = vz * s - ll * uz;

    // Square the component equations.
    assert((ll * ll) * (ux * ux) == (s * s) * (vx * vx) - 2 * s * (vx * rx) + rx * rx)
        by (nonlinear_arith)
        requires
            ll * ux == vx * s - rx,
            s == 65536,
    ;
    assert((ll * ll) * (uy * uy) == (s * s) * (vy * vy) - 2 * s * (vy * ry) + ry * ry)
        by (nonlinear_arith)
        requires
            ll * uy == vy * s - ry,
            s == 65536,
    ;
    assert((ll * ll) * (uz * uz) == (s * s) * (vz * vz) - 2 * s * (vz * rz) + rz * rz)
        by (nonlinear_arith)
        requires
            ll * uz == vz * s - rz,
            s == 65536,
    ;
    let su = ux * ux + uy * uy + uz * uz;
    let sv = vx * vx + vy * vy + vz * vz;
    let rr = vx * rx + vy * ry + vz * rz;
    let qq = rx * rx + ry * ry + rz * rz;
    assert((ll * ll) * su == (ll * ll) * (ux * ux) + (ll * ll) * (uy * uy) + (ll * ll) * (uz
        * uz)) by (nonlinear_arith)
        requires
            su == ux * ux + uy * uy + uz * uz,
    ;
    assert((s * s) * sv == (s * s) * (vx * vx) + (s * s) * (vy * vy) + (s * s) * (vz * vz))
        by (nonlinear_arith)
        requires
            sv == vx * vx + vy * vy + vz * vz,
    ;
    assert((ll * ll) * su == (s * s) * sv - 2 * s * rr + qq);

    // Bound the cross terms and the square rest.
    let br = (ll + 445) * (ll - 1);
    lemma_abs_mul_bound(vx, rx, ll + 445, ll - 1);
    lemma_abs_mul_bound(vy, ry, ll + 445, ll - 1);
    lemma_abs_mul_bound(vz, rz, ll + 445, ll - 1);
    assert(iabs(rr) <= 3 * br);
    assert(0 <= qq <= 3 * (ll * ll)) by (nonlinear_arith)
        requires
            iabs(rx) <= ll - 1,
            iabs(ry) <= ll - 1,
            iabs(rz) <= ll - 1,
            qq == rx * rx + ry * ry + rz * rz,
            ll >= 1,
    ;

    // The exact square sum against the length.
    assert((s * s) * (ll * ll) <= (s * s) * (sl * s) && (s * s) * (sl * s) <= (s * s) * ((ll + 1)
        * (ll + 1) - 1)) by (nonlinear_arith)
        requires
            ll * ll <= sl * s < (ll + 1) * (ll + 1),
            s == 65536,
    ;
    assert((s * s) * (sl * s) <= (s * s) * sv && (s * s) * sv < (s * s) * (sl * s) + (s * s) * (3
        * s)) by (nonlinear_arith)
        requires
            0 <= sv - s * sl < 3 * s,
            s == 65536,
    ;

    // Upper bound.
    assert((ll * ll) * su <= (s * s) * ((ll + 1) * (ll + 1) - 1) + (s * s) * (3 * s) + 2 * s * (3
        * br) + 3 * (ll * ll));
    assert((s * s) * ((ll + 1) * (ll + 1) - 1) + (s * s) * (3 * s) + 2 * s * (3 * br) + 3 * (ll
        * ll) <= (ll * ll) * (s * (s + 247))) by (nonlinear_arith)
        requires
            br == (ll + 445) * (ll - 1),
            ll >= 8192,
            s == 65536,
            s <= 8 * ll,
    ;
    assert(su <= s * (s + 247)) by (nonlinear_arith)
        requires
            (ll * ll) * su <= (ll * ll) * (s * (s + 247)),
            ll >= 1,
    ;

    // Lower bound.
    assert((ll * ll) * su >= (s * s) * (ll * ll) - 2 * s * (3 * br));
    assert((s * s) * (ll * ll) - 2 * s * (3 * br) >= (ll * ll) * (s * (s - 7)))
        by (nonlinear_arith)
        requires
            br == (ll + 445) * (ll - 1),
            ll >= 8192,
            s == 65536,
    ;
    assert(su >= s * (s - 7)) by (nonlinear_arith)
        requires
            (ll * ll) * su >= (ll * ll) * (s * (s - 7)),
            ll >= 1,
    ;
}

/// Normalization yields a vector of length 1, within tolerance: for a
/// non-degenerate `v` (length at least 1/8, components bounded), the squared
/// length of `to_unit(v)` is 1 within 250/65536, and its length is 1 within
/// 126/65536.
pub proof fn lemma_to_unit_length(v: Vec3)
    requires
        iabs(v.x as int) <= 0x1000000000,
        iabs(v.y as int) <= 0x1000000000,
        iabs(v.z as int) <= 0x1000000000,
        spec_len(v) >= 8192,
    ensures
        iabs(spec_squared_len(spec_to_unit(v)) - FX_ONE as int) <= 250,
        iabs(spec_len(spec_to_unit(v)) - FX_ONE as int) <= 126,
{
    let s = FX_ONE as int;
    let u = spec_to_unit(v);
    let ux = u.x as int;
    let uy = u.y as int;
    let uz = u.z as int;
    lemma_norm_setup(v);
    lemma_norm_len_core(
        v.x as int,
        v.y as int,
        v.z as int,
        ux,
        uy,
        uz,
        spec_squared_len(v),
        spec_len(v),
    );

    // From the exact square sum to the truncated one.
    lemma_abs_mul_bound(ux, ux, s + 3561, s + 3561);
    lemma_abs_mul_bound(uy, uy, s + 3561, s + 3561);
    lemma_abs_mul_bound(uz, uz, s + 3561, s + 3561);
    lemma_fx_mul_approx(ux, ux);
    lemma_fx_mul_approx(uy, uy);
    lemma_fx_mul_approx(uz, uz);
    assert(ux * ux >= 0 && uy * uy >= 0 && uz * uz >= 0) by (nonlinear_arith);
    lemma_tdiv_rem(ux * ux, s);
    lemma_tdiv_rem(uy * uy, s);
    lemma_tdiv_rem(uz * uz, s);
    let su = spec_squared_len(u);
    assert(su == fx_mul(ux, ux) + fx_mul(uy, uy) + fx_mul(uz, uz));
    assert(0 <= ux * ux + uy * uy + uz * uz - s * su < 3 * s);
    assert(iabs(su - s) <= 250) by (nonlinear_arith)
        requires
            s * (s - 7) <= ux * ux + uy * uy + uz * uz <= s * (s + 247),
            0 <= ux * ux + uy * uy + uz * uz - s * su < 3 * s,
            s == 65536,
    ;

    // And from the squared length to the length.
    assert(su > 0);
    assert(spec_len(u) == crate::fixed::sqrt_floor(su * s));
    crate::fixed::lemma_sqrt_floor(su * s);
    let lu = spec_len(u);
    assert(iabs(lu - s) <= 126) by (nonlinear_arith)
        requires
            lu * lu <= su * s < (lu + 1) * (lu + 1),
            iabs(su - s) <= 250,
            lu >= 0,
            s == 65536,
    ;
}

/// One strictly positive term of the unit vector's dot product with the
/// original: a component whose magnitude carries at least half the length
/// contributes at least one unit.
proof fn lemma_unit_term_pos(vm: int, um: int, ll: int)
    requires
        ll >= 8192,
        iabs(ll * um - vm * 65536) < ll,
        2 * iabs(vm) >= ll,
        um * vm >= 0,
        iabs(um * vm) <= 0x40000000000000000000,
    ensures
        fx_mul(um, vm) >= 1,
{
    let s: int = 65536;
    let rm = vm * s - ll * um;
    assert(ll * (um * vm) == (vm * vm) * s - rm * vm) by (nonlinear_arith)
        requires
            ll * um == vm * s - rm,
            s == 65536,
    ;
    assert((vm * vm) * s - rm * vm >= ll * s) by (nonlinear_arith)
        requires
            iabs(rm) < ll,
            2 * iabs(vm) >= ll,
            ll >= 8192,
            s == 65536,
    ;
    assert(um * vm >= s) by (nonlinear_arith)
        requires
            ll * (um * vm) >= ll * s,
            ll >= 1,
    ;
    lemma_fx_mul_approx(um, vm);
    lemma_tdiv_rem(um * vm, s);
    assert(tdiv(um * vm, s) >= 1) by (nonlinear_arith)
        requires
            um * vm >= s,
            0 <= um * vm - s * tdiv(um * vm, s) < s,
            s == 65536,
    ;
}

/// The normalized vector points along the original: for a non-degenerate
/// `v`, `dot(to_unit(v), v)` is strictly positive.
pub proof fn lemma_to_unit_points_along(v: Vec3)
    requires
        iabs(v.x as int) <= 0x1000000000,
        iabs(v.y as int) <= 0x1000000000,
        iabs(v.z as int) <= 0x1000000000,
        spec_len(v) >= 8192,
    ensures
        spec_dot(spec_to_unit(v), v) > 0,
{
    let s = FX_ONE as int;
    let vx = v.x as int;
    let vy = v.y as int;
    let vz = v.z as int;
    let u = spec_to_unit(v);
    let ux = u.x as int;
    let uy = u.y as int;
    let uz = u.z as int;
    let ll = spec_len(v);
    lemma_norm_setup(v);

    // Every term of the dot product is nonnegative...
    lemma_abs_mul_bound(ux, vx, s + 3561, 0x1000000000);
    lemma_abs_mul_bound(uy, vy, s + 3561, 0x1000000000);
    lemma_abs_mul_bound(uz, vz, s + 3561, 0x1000000000);
    lemma_fx_mul_approx(ux, vx);
    lemma_fx_mul_approx(uy, vy);
    lemma_fx_mul_approx(uz, vz);
    lemma_tdiv_rem(ux * vx, s);
    lemma_tdiv_rem(uy * vy, s);
    lemma_tdiv_rem(uz * vz, s);
    assert(fx_mul(ux, vx) >= 0 && fx_mul(uy, vy) >= 0 && fx_mul(uz, vz) >= 0);

    // ... and the largest component contributes at least one unit.
    let sv = vx * vx + vy * vy + vz * vz;
    assert(s * spec_squared_len(v) >= ll * ll);
    assert(sv >= ll * ll);
    if vx * vx >= vy * vy && vx * vx >= vz * vz {
        assert(2 * iabs(vx) >= ll) by (nonlinear_arith)
            requires
                vx * vx >= vy * vy && vx * vx >= vz * vz,
                vx * vx + vy * vy + vz * vz >= ll * ll,
                ll >= 0,
        ;
        lemma_unit_term_pos(vx, ux, ll);
    } else if vy * vy >= vx * vx && vy * vy >= vz * vz {
        assert(2 * iabs(vy) >= ll) by (nonlinear_arith)
            requires
                vy * vy >= vx * vx && vy * vy >= vz * vz,
                vx * vx + vy * vy + vz * vz >= ll * ll,
                ll >= 0,
        ;
        lemma_unit_term_pos(vy, uy, ll);
    } else {
        assert(2 * iabs(vz) >= ll) by (nonlinear_arith)
            requires
                vz * vz >= vx * vx && vz * vz >= vy * vy,
                vx * vx + vy * vy + vz * vz >= ll * ll,
                ll >= 0,
        ;
        lemma_unit_term_pos(vz, uz, ll);
    }
    assert(spec_dot(u, v) == fx_mul(ux, vx) + fx_mul(uy, vy) + fx_mul(uz, vz));
}

/// The record a sphere reports for a root `t`: its normal is the
/// normalization of `point - center`, so as long as the hit point is not
/// degenerately close to the center, the normal has length 1 within
/// tolerance and points outward — its dot product with `point - center` is
/// strictly positive.
pub proof fn lemma_hit_record_normal(sph: Sphere, ray: Ray, t: int)
    requires
        iabs(spec_sub(spec_point_at(ray, t), sph.center).x as int) <= 0x1000000000,
        iabs(spec_sub(spec_point_at(ray, t), sph.center).y as int) <= 0x1000000000,
        iabs(spec_sub(spec_point_at(ray, t), sph.center).z as int) <= 0x1000000000,
        spec_len(spec_sub(spec_point_at(ray, t), sph.center)) >= 8192,
    ensures
        spec_sphere_record(sph, ray, t).normal == spec_to_unit(
            spec_sub(spec_point_at(ray, t), sph.center),
        ),
        spec_dot(
            spec_sphere_record(sph, ray, t).normal,
            spec_sub(spec_point_at(ray, t), sph.center),
        ) > 0,
        iabs(spec_squared_len(spec_sphere_record(sph, ray, t).normal) - FX_ONE as int) <= 250,
        iabs(spec_len(spec_sphere_record(sph, ray, t).normal) - FX_ONE as int) <= 126,
{
    let d = spec_sub(spec_point_at(ray, t), sph.center);
    lemma_to_unit_points_along(d);
    lemma_to_unit_length(d);
}

/// Reflection about a unit normal flips the normal component: for `n` with
/// `dot(n, n)` exactly 1 and a bounded `v`,
/// `dot(reflect(v, n), n)` equals `-dot(v, n)` up to a rounding error of at
/// most 9 fixed-point units plus 6 units per whole unit of `dot(v, n)`.
pub proof fn lemma_reflect_dot(v: Vec3, n: Vec3)
    requires
        spec_dot(n, n) == FX_ONE as int,
        iabs(v.x as int) <= 0x1000000000,
        iabs(v.y as int) <= 0x1000000000,
        iabs(v.z as int) <= 0x1000000000,
    ensures
        iabs(spec_dot(spec_reflect(v, n), n) + spec_dot(v, n)) <= 9 + 6 * iabs(spec_dot(v, n))
            / (FX_ONE as int),
{
    let s = FX_ONE as int;
    let bb = 0x1000000000;
    lemma_unit_vec_bounds(n);
    lemma_dot_approx(v, n, bb);
    let d = spec_dot(v, n);
    let d2 = fx_add(d, d);
    assert(d2 == 2 * d);
    lemma_scale_approx(n, d2, 6 * bb);
    let t = spec_scale(n, d2);
    let r = spec_reflect(v, n);
    assert(r.x as int == (v.x as int) - (t.x as int) && r.y as int == (v.y as int) - (t.y as int)
        && r.z as int == (v.z as int) - (t.z as int));
    lemma_dot_approx(r, n, 7 * bb);
    lemma_reflect_dot_core(
        v.x as int,
        v.y as int,
        v.z as int,
        n.x as int,
        n.y as int,
        n.z as int,
        t.x as int,
        t.y as int,
        t.z as int,
        d,
        spec_dot(r, n),
    );
}

/// In an empty scene every ray misses, so the integrator returns exactly the
/// background gradient for the ray, at any depth, and draws nothing from the
/// random stream.
pub proof fn lemma_empty_scene_background(
    world: Vec<Sphere>,
    ray: Ray,
    depth: int,
    max_depth: int,
    seed: u64,
    ctr: nat,
)
    requires
        world@.len() == 0,
    ensures
        spec_compute_color(ray, world, depth, max_depth, seed, ctr) == (spec_background(ray), ctr),
{
    assert(world.hit_spec(ray, T_MIN as int, i64::MAX as int) is None);
}

/// The recursion-depth cutoff: once `max_depth` scatters have happened, a
/// ray that still hits something contributes black and consumes no further
/// random draws, whatever the scene. (That the integrator is total at all —
/// that no ray can recurse past `max_depth` — is enforced by the decrease of
/// `max_depth - depth` in its definition.)
pub proof fn lemma_depth_cutoff<T: Hit>(
    ray: Ray,
    world: T,
    depth: int,
    max_depth: int,
    seed: u64,
    ctr: nat,
)
    requires
        depth >= max_depth,
        world.hit_spec(ray, T_MIN as int, i64::MAX as int) is Some,
    ensures
        spec_compute_color(ray, world, depth, max_depth, seed, ctr) == (spec_black(), ctr),
{
}

/// A scene that never lets a ray go — every ray hits something and every
/// hit scatters — still terminates: after `max_depth` scatters the cutoff
/// yields black, and the attenuation product absorbs it, so the integrator
/// returns black for every starting depth and stream position.
pub proof fn lemma_mirror_world_black<T: Hit>(
    ray: Ray,
    world: T,
    depth: int,
    max_depth: int,
    seed: u64,
    ctr: nat,
)
    requires
        forall|r: Ray| (#[trigger] world.hit_spec(r, T_MIN as int, i64::MAX as int)) is Some,
        forall|r: Ray, h: HitRecord, sd: u64, c: nat|
            world.hit_spec(r, T_MIN as int, i64::MAX as int) == Some(h) ==> (#[trigger] h.material
                .scatter_spec(r, h.point, h.normal, sd, c)).0 is Some,
    ensures
        spec_compute_color(ray, world, depth, max_depth, seed, ctr).0 == spec_black(),
    decreases max_depth - depth,
{
    let h = world.hit_spec(ray, T_MIN as int, i64::MAX as int)->Some_0;
    if depth < max_depth {
        let (srec, c2) = h.material.scatter_spec(ray, h.point, h.normal, seed, ctr);
        let s = srec->Some_0;
        lemma_mirror_world_black(s.ray, world, depth + 1, max_depth, seed, c2);
        let black = spec_black();
        assert(spec_mul(s.attenuation, black) == black);
    }
}

/// Determinism: two renders of the same scene, camera, image size, sample
/// count and seed produce identical pixel grids. Together with `render`'s
/// postcondition — its output equals `spec_render` of its arguments and the
/// source's seed — two `render` calls on equal arguments give equal images.
pub proof fn lemma_render_deterministic<T: Hit>(
    cam: Camera,
    world: T,
    width: nat,
    height: nat,
    samples: nat,
    max_depth: int,
    seed: u64,
    ctr: nat,
    first: (Seq<(u8, u8, u8)>, nat),
    second: (Seq<(u8, u8, u8)>, nat),
)
    requires
        first == spec_render(cam, world, width, height, samples, max_depth, seed, ctr),
        second == spec_render(cam, world, width, height, samples, max_depth, seed, ctr),
    ensures
        first == second,
{
}

} // verus!
