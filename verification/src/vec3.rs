//! Three-component fixed-point vectors: points, directions and colors.

use vstd::prelude::*;
use crate::fixed::{
    FX_ONE, fx_add, fx_sub, fx_mul, fx_div, fx_sqrt, add_fx, sub_fx, mul_fx, div_fx, sqrt_fx,
};
use crate::rgb::Rgb;

verus! {

/// A vector in 3-space; each component is a fixed-point value scaled by
/// `FX_ONE`.
#[derive(Clone, Copy, PartialEq, Eq, Structural, Debug)]
pub struct Vec3 {
    pub x: i64,
    pub y: i64,
    pub z: i64,
}

/// Componentwise sum.
pub open spec fn spec_add(a: Vec3, b: Vec3) -> Vec3 {
    Vec3 {
        x: fx_add(a.x as int, b.x as int) as i64,
        y: fx_add(a.y as int, b.y as int) as i64,
        z: fx_add(a.z as int, b.z as int) as i64,
    }
}

/// Componentwise difference.
pub open spec fn spec_sub(a: Vec3, b: Vec3) -> Vec3 {
    Vec3 {
        x: fx_sub(a.x as int, b.x as int) as i64,
        y: fx_sub(a.y as int, b.y as int) as i64,
        z: fx_sub(a.z as int, b.z as int) as i64,
    }
}

/// Componentwise (Hadamard) product.
pub open spec fn spec_mul(a: Vec3, b: Vec3) -> Vec3 {
    Vec3 {
        x: fx_mul(a.x as int, b.x as int) as i64,
        y: fx_mul(a.y as int, b.y as int) as i64,
        z: fx_mul(a.z as int, b.z as int) as i64,
    }
}

/// Componentwise quotient.
pub open spec fn spec_div(a: Vec3, b: Vec3) -> Vec3 {
    Vec3 {
        x: fx_div(a.x as int, b.x as int) as i64,
        y: fx_div(a.y as int, b.y as int) as i64,
        z: fx_div(a.z as int, b.z as int) as i64,
    }
}

/// Scaling by a fixed-point scalar.
pub open spec fn spec_scale(a: Vec3, k: int) -> Vec3 {
    Vec3 {
        x: fx_mul(a.x as int, k) as i64,
        y: fx_mul(a.y as int, k) as i64,
        z: fx_mul(a.z as int, k) as i64,
    }
}

/// Division by a fixed-point scalar.
pub open spec fn spec_scale_div(a: Vec3, k: int) -> Vec3 {
    Vec3 {
        x: fx_div(a.x as int, k) as i64,
        y: fx_div(a.y as int, k) as i64,
        z: fx_div(a.z as int, k) as i64,
    }
}

/// Dot product: the fixed-point products of matching components, summed.
pub open spec fn spec_dot(a: Vec3, b: Vec3) -> int {
    fx_add(
        fx_add(fx_mul(a.x as int, b.x as int), fx_mul(a.y as int, b.y as int)),
        fx_mul(a.z as int, b.z as int),
    )
}

/// Cross product.
pub open spec fn spec_cross(a: Vec3, b: Vec3) -> Vec3 {
    Vec3 {
        x: fx_sub(fx_mul(a.y as int, b.z as int), fx_mul(a.z as int, b.y as int)) as i64,
        y: fx_sub(fx_mul(a.z as int, b.x as int), fx_mul(a.x as int, b.z as int)) as i64,
        z: fx_sub(fx_mul(a.x as int, b.y as int), fx_mul(a.y as int, b.x as int)) as i64,
    }
}

/// Squared length: the vector dotted with itself.
pub open spec fn spec_squared_len(a: Vec3) -> int {
    spec_dot(a, a)
}

/// Length: fixed-point square root of the squared length.
pub open spec fn spec_len(a: Vec3) -> int {
    fx_sqrt(spec_squared_len(a))
}

/// Normalization: each component divided by the length (the zero vector when
/// the length truncates to zero; callers who need a meaningful direction must
/// pass a non-degenerate vector).
pub open spec fn spec_to_unit(a: Vec3) -> Vec3 {
    spec_scale_div(a, spec_len(a))
}

impl Vec3 {
    /// Reinterpret a color as a vector (a direct component remap).
    pub fn from(rgb: Rgb) -> (v: Vec3)
        ensures
            v.x == rgb.r,
            v.y == rgb.g,
            v.z == rgb.b,
    {
        Vec3 { x: rgb.r, y: rgb.g, z: rgb.b }
    }

    /// Euclidean length.
    pub fn len(&self) -> (r: i64)
        ensures
            r as int == spec_len(*self),
    {
        sqrt_fx(self.squared_len())
    }

    /// Squared Euclidean length; never negative.
    pub fn squared_len(&self) -> (r: i64)
        ensures
            r as int == spec_squared_len(*self),
            r >= 0,
    {
        proof {
            crate::fixed::lemma_fx_square_nonneg(self.x as int);
            crate::fixed::lemma_fx_square_nonneg(self.y as int);
            crate::fixed::lemma_fx_square_nonneg(self.z as int);
        }
        dot(*self, *self)
    }

    /// The unit vector with this vector's direction (the zero vector if the
    /// length truncates to zero).
    pub fn to_unit(&self) -> (r: Vec3)
        ensures
            r == spec_to_unit(*self),
    {
        let k = self.len();
        Vec3 { x: div_fx(self.x, k), y: div_fx(self.y, k), z: div_fx(self.z, k) }
    }

    /// Componentwise sum.
    pub fn add(self, other: Vec3) -> (r: Vec3)
        ensures
            r == spec_add(self, other),
    {
        Vec3 {
            x: add_fx(self.x, other.x),
            y: add_fx(self.y, other.y),
            z: add_fx(self.z, other.z),
        }
    }

    /// Componentwise sum, in place.
    pub fn add_assign(&mut self, other: Vec3)
        ensures
            *final(self) == spec_add(*old(self), other),
    {
        *self = self.add(other);
    }

    /// Componentwise difference.
    pub fn sub(self, other: Vec3) -> (r: Vec3)
        ensures
            r == spec_sub(self, other),
    {
        Vec3 {
            x: sub_fx(self.x, other.x),
            y: sub_fx(self.y, other.y),
            z: sub_fx(self.z, other.z),
        }
    }

    /// Componentwise difference, in place.
    pub fn sub_assign(&mut self, other: Vec3)
        ensures
            *final(self) == spec_sub(*old(self), other),
    {
        *self = self.sub(other);
    }

    /// Componentwise product.
    pub fn mul(self, other: Vec3) -> (r: Vec3)
        ensures
            r == spec_mul(self, other),
    {
        Vec3 {
            x: mul_fx(self.x, other.x),
            y: mul_fx(self.y, other.y),
            z: mul_fx(self.z, other.z),
        }
    }

    /// Componentwise product, in place.
    pub fn mul_assign(&mut self, other: Vec3)
        ensures
            *final(self) == spec_mul(*old(self), other),
    {
        *self = self.mul(other);
    }

    /// Componentwise quotient (a zero component where the divisor is zero).
    pub fn div(self, other: Vec3) -> (r: Vec3)
        ensures
            r == spec_div(self, other),
    {
        Vec3 {
            x: div_fx(self.x, other.x),
            y: div_fx(self.y, other.y),
            z: div_fx(self.z, other.z),
        }
    }

    /// Componentwise quotient, in place.
    pub fn div_assign(&mut self, other: Vec3)
        ensures
            *final(self) == spec_div(*old(self), other),
    {
        *self = self.div(other);
    }

    /// Scale by a fixed-point scalar.
    pub fn scale(self, k: i64) -> (r: Vec3)
        ensures
            r == spec_scale(self, k as int),
    {
        Vec3 { x: mul_fx(self.x, k), y: mul_fx(self.y, k), z: mul_fx(self.z, k) }
    }

    /// Divide by a fixed-point scalar (the zero vector on a zero divisor).
    pub fn scale_div(self, k: i64) -> (r: Vec3)
        ensures
            r == spec_scale_div(self, k as int),
    {
        Vec3 { x: div_fx(self.x, k), y: div_fx(self.y, k), z: div_fx(self.z, k) }
    }

    /// The `i`-th component, for `i` in 0..3.
    pub fn index(&self, i: usize) -> (r: i64)
        requires
            i < 3,
        ensures
            i == 0 ==> r == self.x,
            i == 1 ==> r == self.y,
            i == 2 ==> r == self.z,
    {
        if i == 0 {
            self.x
        } else if i == 1 {
            self.y
        } else {
            self.z
        }
    }
}

/// Dot product.
pub fn dot(a: Vec3, b: Vec3) -> (r: i64)
    ensures
        r as int == spec_dot(a, b),
{
    add_fx(add_fx(mul_fx(a.x, b.x), mul_fx(a.y, b.y)), mul_fx(a.z, b.z))
}

/// Cross product.
pub fn cross(a: Vec3, b: Vec3) -> (r: Vec3)
    ensures
        r == spec_cross(a, b),
{
    Vec3 {
        x: sub_fx(mul_fx(a.y, b.z), mul_fx(a.z, b.y)),
        y: sub_fx(mul_fx(a.z, b.x), mul_fx(a.x, b.z)),
        z: sub_fx(mul_fx(a.x, b.y), mul_fx(a.y, b.x)),
    }
}

} // verus!
