//! Fixed-point scalar arithmetic.
//!
//! A quantity is stored as an `i64` holding its value scaled by `FX_ONE`
//! (2^16). Multiplication and division rescale with truncation toward zero,
//! and results outside the `i64` range saturate, so every operation is total
//! and its result is pinned exactly by a spec-level function of its inputs.

use vstd::prelude::*;

verus! {

/// The fixed-point unit: raw value of 1.0.
pub const FX_ONE: i64 = 65536;

/// Saturate a mathematical integer into the `i64` range.
pub open spec fn clip(x: int) -> int {
    if x > i64::MAX {
        i64::MAX as int
    } else if x < i64::MIN {
        i64::MIN as int
    } else {
        x
    }
}

/// Absolute value.
pub open spec fn iabs(x: int) -> int {
    if x < 0 {
        -x
    } else {
        x
    }
}

/// Division truncating toward zero (the rounding of `/` on machine
/// integers), defined as 0 on a zero divisor so that specs stay total:
/// the quotient of the magnitudes, with the usual sign rule.
pub open spec fn tdiv(a: int, b: int) -> int {
    if b == 0 {
        0
    } else if (a < 0) != (b < 0) {
        -(iabs(a) / iabs(b))
    } else {
        iabs(a) / iabs(b)
    }
}

/// Saturating fixed-point addition.
pub open spec fn fx_add(a: int, b: int) -> int {
    clip(a + b)
}

/// Saturating fixed-point subtraction.
pub open spec fn fx_sub(a: int, b: int) -> int {
    clip(a - b)
}

/// Fixed-point product: rescale the double-width product by `FX_ONE`,
/// truncating toward zero, then saturate.
pub open spec fn fx_mul(a: int, b: int) -> int {
    clip(tdiv(a * b, FX_ONE as int))
}

/// Fixed-point quotient: widen the dividend by `FX_ONE`, divide truncating
/// toward zero, then saturate. Zero on a zero divisor.
pub open spec fn fx_div(a: int, b: int) -> int {
    clip(tdiv(a * FX_ONE, b))
}

/// Saturating fixed-point addition.
pub fn add_fx(a: i64, b: i64) -> (r: i64)
    ensures
        r as int == fx_add(a as int, b as int),
{
    let wide: i128 = a as i128 + b as i128;
    clamp128(wide)
}

/// Saturating fixed-point subtraction.
pub fn sub_fx(a: i64, b: i64) -> (r: i64)
    ensures
        r as int == fx_sub(a as int, b as int),
{
    let wide: i128 = a as i128 - b as i128;
    clamp128(wide)
}

/// Saturate a double-width intermediate into the `i64` range.
fn clamp128(x: i128) -> (r: i64)
    ensures
        r as int == clip(x as int),
{
    if x > i64::MAX as i128 {
        i64::MAX
    } else if x < i64::MIN as i128 {
        i64::MIN
    } else {
        x as i64
    }
}

/// A quotient of nonnegative values is at most the dividend.
proof fn lemma_udiv_le(a: int, b: int)
    requires
        a >= 0,
        b >= 1,
    ensures
        0 <= a / b <= a,
{
    assert(0 <= a / b <= a) by (nonlinear_arith)
        requires
            a >= 0,
            b >= 1,
    ;
}

/// Double-width division truncating toward zero.
pub(crate) fn tdiv_wide(a: i128, b: i128) -> (r: i128)
    requires
        -(i128::MAX as int) <= a,
        -(i128::MAX as int) <= b,
    ensures
        r as int == tdiv(a as int, b as int),
{
    if b == 0 {
        return 0;
    }
    let ua: u128 = if a < 0 {
        (-a) as u128
    } else {
        a as u128
    };
    let ub: u128 = if b < 0 {
        (-b) as u128
    } else {
        b as u128
    };
    let uq: u128 = ua / ub;
    proof {
        lemma_udiv_le(ua as int, ub as int);
    }
    if (a < 0) != (b < 0) {
        -(uq as i128)
    } else {
        uq as i128
    }
}

/// Products of two `i64` values stay well inside the `i128` range.
proof fn lemma_i64_product_bounds(a: int, b: int)
    requires
        i64::MIN <= a <= i64::MAX,
        i64::MIN <= b <= i64::MAX,
    ensures
        -(i128::MAX as int) <= a * b <= i128::MAX as int,
{
    assert(-0x40000000000000000000000000000000 <= a * b <= 0x40000000000000000000000000000000)
        by (nonlinear_arith)
        requires
            -0x8000000000000000 <= a <= 0x7fffffffffffffff,
            -0x8000000000000000 <= b <= 0x7fffffffffffffff,
    ;
}

/// Fixed-point product.
pub fn mul_fx(a: i64, b: i64) -> (r: i64)
    ensures
        r as int == fx_mul(a as int, b as int),
{
    proof {
        lemma_i64_product_bounds(a as int, b as int);
    }
    let wide: i128 = (a as i128) * (b as i128);
    let q = tdiv_wide(wide, FX_ONE as i128);
    clamp128(q)
}

/// Fixed-point quotient (zero on a zero divisor).
pub fn div_fx(a: i64, b: i64) -> (r: i64)
    ensures
        r as int == fx_div(a as int, b as int),
{
    proof {
        lemma_i64_product_bounds(a as int, FX_ONE as int);
    }
    let wide: i128 = (a as i128) * (FX_ONE as i128);
    let q = tdiv_wide(wide, b as i128);
    clamp128(q)
}

/// The largest integer whose square does not exceed `n` (0 for negative `n`).
pub open spec fn sqrt_floor(n: int) -> int
    decreases n,
{
    if n <= 0 {
        0
    } else {
        let r = sqrt_floor(n - 1);
        if (r + 1) * (r + 1) <= n {
            r + 1
        } else {
            r
        }
    }
}

/// `sqrt_floor(n)` really is the floor of the square root.
pub proof fn lemma_sqrt_floor(n: int)
    requires
        n >= 0,
    ensures
        sqrt_floor(n) >= 0,
        sqrt_floor(n) * sqrt_floor(n) <= n,
        n < (sqrt_floor(n) + 1) * (sqrt_floor(n) + 1),
    decreases n,
{
    if n > 0 {
        lemma_sqrt_floor(n - 1);
        let r = sqrt_floor(n - 1);
        if (r + 1) * (r + 1) <= n {
            assert((r + 2) * (r + 2) > n) by (nonlinear_arith)
                requires
                    r >= 0,
                    n - 1 < (r + 1) * (r + 1),
            ;
        }
    }
}

/// Any `r` with `r^2 <= n < (r+1)^2` equals `sqrt_floor(n)`.
pub proof fn lemma_sqrt_floor_unique(n: int, r: int)
    requires
        n >= 0,
        r >= 0,
        r * r <= n,
        n < (r + 1) * (r + 1),
    ensures
        r == sqrt_floor(n),
{
    lemma_sqrt_floor(n);
    let s = sqrt_floor(n);
    if r < s {
        assert((r + 1) * (r + 1) <= s * s) by (nonlinear_arith)
            requires
                0 <= r,
                r + 1 <= s,
        ;
    }
    if s < r {
        assert((s + 1) * (s + 1) <= r * r) by (nonlinear_arith)
            requires
                0 <= s,
                s + 1 <= r,
        ;
    }
}

/// Floor of the square root of a 128-bit integer, by bisection.
pub fn isqrt(n: u128) -> (r: u64)
    ensures
        r as int == sqrt_floor(n as int),
{
    let mut lo: u128 = 0;
    let mut hi: u128 = 0x1_0000_0000_0000_0000;
    proof {
        assert((0x1_0000_0000_0000_0000 as int) * (0x1_0000_0000_0000_0000 as int) > n as int);
    }
    while lo + 1 < hi
        invariant
            lo < hi,
            hi <= 0x1_0000_0000_0000_0000,
            (lo as int) * (lo as int) <= n as int,
            (n as int) < (hi as int) * (hi as int),
        decreases hi - lo,
    {
        let mid = lo + (hi - lo) / 2;
        assert(lo < mid < hi);
        assert(mid * mid <= u128::MAX) by (nonlinear_arith)
            requires
                mid < 0x1_0000_0000_0000_0000,
        ;
        let sq = mid * mid;
        if sq <= n {
            lo = mid;
        } else {
            hi = mid;
        }
    }
    proof {
        lemma_sqrt_floor_unique(n as int, lo as int);
    }
    lo as u64
}

/// Fixed-point square root: the scaled value's square root, rounded down
/// (0 for non-positive input).
pub open spec fn fx_sqrt(a: int) -> int {
    if a <= 0 {
        0
    } else {
        sqrt_floor(a * FX_ONE)
    }
}

/// Fixed-point square root.
pub fn sqrt_fx(a: i64) -> (r: i64)
    ensures
        r as int == fx_sqrt(a as int),
{
    if a <= 0 {
        0
    } else {
        proof {
            assert((a as int) * (FX_ONE as int) <= 0x80000000000000000000) by (nonlinear_arith)
                requires
                    0 < a as int <= 0x7fffffffffffffff,
            ;
        }
        let n: u128 = (a as u128) * (FX_ONE as u128);
        let r = isqrt(n);
        proof {
            lemma_sqrt_floor(n as int);
            assert(sqrt_floor(n as int) < 0x1_0000_0000_0000) by (nonlinear_arith)
                requires
                    sqrt_floor(n as int) >= 0,
                    sqrt_floor(n as int) * sqrt_floor(n as int) <= n as int,
                    (n as int) < 0x1_0000_0000_0000 * 0x1_0000_0000_0000,
            ;
        }
        r as i64
    }
}

/// The division identity for truncation toward zero: the rounded quotient
/// is off by less than one divisor, toward zero.
pub proof fn lemma_tdiv_rem(a: int, b: int)
    requires
        b > 0,
    ensures
        a >= 0 ==> 0 <= a - b * tdiv(a, b) < b,
        a < 0 ==> 0 <= b * tdiv(a, b) - a < b,
        a >= 0 ==> tdiv(a, b) >= 0,
        a <= 0 ==> tdiv(a, b) <= 0,
        iabs(b * tdiv(a, b)) <= iabs(a),
{
    if a >= 0 {
        assert(0 <= a - b * (a / b) < b && a / b >= 0 && b * (a / b) >= 0) by (nonlinear_arith)
            requires
                a >= 0,
                b > 0,
        ;
    } else {
        let q = (-a) / b;
        assert(0 <= (-a) - b * q < b && q >= 0 && b * q >= 0) by (nonlinear_arith)
            requires
                -a > 0,
                b > 0,
                q == (-a) / b,
        ;
        assert(tdiv(a, b) == -q);
        assert(b * tdiv(a, b) == -(b * q)) by (nonlinear_arith)
            requires
                tdiv(a, b) == -q,
        ;
    }
}

/// For moderate operands the fixed-point product does not saturate, and it
/// approximates the exact rescaled product to within one unit.
pub proof fn lemma_fx_mul_approx(a: int, b: int)
    requires
        iabs(a * b) <= 0x40000000000000000000,
    ensures
        fx_mul(a, b) == tdiv(a * b, FX_ONE as int),
        iabs(FX_ONE * fx_mul(a, b) - a * b) < FX_ONE,
        iabs(FX_ONE * fx_mul(a, b)) <= iabs(a * b),
{
    lemma_tdiv_rem(a * b, FX_ONE as int);
    let q = tdiv(a * b, FX_ONE as int);
    assert(iabs(FX_ONE * q) <= iabs(a * b));
    assert(iabs(q) * FX_ONE == iabs(FX_ONE * q)) by (nonlinear_arith);
    assert(iabs(q) <= 0x4000000000000000) by (nonlinear_arith)
        requires
            iabs(q) * FX_ONE <= 0x40000000000000000000,
            FX_ONE == 65536,
    ;
    assert(clip(q) == q);
}

/// For a positive divisor and a dividend that keeps the quotient in range,
/// the fixed-point quotient does not saturate, and it approximates the exact
/// scaled quotient to within one divisor.
pub proof fn lemma_fx_div_approx(a: int, b: int)
    requires
        b >= 1,
        iabs(a) * FX_ONE <= 0x7fffffffffffffff * b,
    ensures
        fx_div(a, b) == tdiv(a * FX_ONE, b),
        iabs(b * fx_div(a, b) - a * FX_ONE) < b,
        iabs(b * fx_div(a, b)) <= iabs(a) * FX_ONE,
{
    lemma_tdiv_rem(a * FX_ONE, b);
    let q = tdiv(a * FX_ONE, b);
    assert(iabs(a * FX_ONE) == iabs(a) * FX_ONE) by (nonlinear_arith);
    assert(iabs(b * q) == b * iabs(q)) by (nonlinear_arith)
        requires
            b >= 1,
    ;
    assert(iabs(q) <= 0x7fffffffffffffff) by (nonlinear_arith)
        requires
            b * iabs(q) <= 0x7fffffffffffffff * b,
            b >= 1,
    ;
    assert(clip(q) == q);
}

/// Magnitudes multiply: a product is bounded by the product of bounds.
pub proof fn lemma_abs_mul_bound(a: int, b: int, ba: int, bb: int)
    requires
        iabs(a) <= ba,
        iabs(b) <= bb,
    ensures
        iabs(a * b) <= ba * bb,
{
    assert(iabs(a * b) <= ba * bb) by (nonlinear_arith)
        requires
            iabs(a) <= ba,
            iabs(b) <= bb,
    ;
}

/// Scaling by a positive constant scales the magnitude.
pub proof fn lemma_abs_scale(k: int, x: int)
    requires
        k > 0,
    ensures
        iabs(k * x) == k * iabs(x),
{
    assert(iabs(k * x) == k * iabs(x)) by (nonlinear_arith)
        requires
            k > 0,
    ;
}

/// The fixed-point square of a value is never negative.
pub proof fn lemma_fx_square_nonneg(a: int)
    ensures
        fx_mul(a, a) >= 0,
{
    assert(a * a >= 0) by (nonlinear_arith);
    lemma_tdiv_nonneg(a * a, FX_ONE as int);
}

/// Truncating division of a nonnegative value by a positive one is nonnegative.
pub proof fn lemma_tdiv_nonneg(a: int, b: int)
    requires
        a >= 0,
        b > 0,
    ensures
        tdiv(a, b) >= 0,
        tdiv(a, b) <= a,
{
    assert(0 <= a / b <= a) by (nonlinear_arith)
        requires
            a >= 0,
            b > 0,
    ;
}

} // verus!
