//! Color values: conversion from vectors, gamma correction, quantization.

use vstd::prelude::*;
use crate::fixed::{FX_ONE, fx_sqrt, sqrt_fx, tdiv};
use crate::vec3::Vec3;

verus! {

/// A 3-channel color; each channel is a fixed-point value, nominally in
/// [0, 1] but not clamped until quantization.
#[derive(Clone, Copy, PartialEq, Eq, Structural, Debug)]
pub struct Rgb {
    pub r: i64,
    pub g: i64,
    pub b: i64,
}

/// Quantization of one channel to 8 bits: `255.99 * value`, truncated toward
/// zero and clamped to [0, 255]. `25599 / 100` is exactly 255.99, and the
/// extra `FX_ONE` removes the fixed-point scale.
pub open spec fn spec_quant_channel(c: int) -> int {
    let q = tdiv(c * 25599, 100 * FX_ONE);
    if q < 0 {
        0
    } else if q > 255 {
        255
    } else {
        q
    }
}

impl Rgb {
    /// Reinterpret a vector as a color (a direct component remap).
    pub fn from(v: Vec3) -> (c: Rgb)
        ensures
            c.r == v.x,
            c.g == v.y,
            c.b == v.z,
    {
        Rgb { r: v.x, g: v.y, b: v.z }
    }

    /// Gamma correction with exponent 1/2: each channel is replaced by its
    /// square root.
    pub fn gamma_correct(self) -> (c: Rgb)
        ensures
            c.r as int == fx_sqrt(self.r as int),
            c.g as int == fx_sqrt(self.g as int),
            c.b as int == fx_sqrt(self.b as int),
    {
        Rgb { r: sqrt_fx(self.r), g: sqrt_fx(self.g), b: sqrt_fx(self.b) }
    }

    /// Quantize each channel to an 8-bit value.
    pub fn quantize(&self) -> (q: (u8, u8, u8))
        ensures
            q.0 as int == spec_quant_channel(self.r as int),
            q.1 as int == spec_quant_channel(self.g as int),
            q.2 as int == spec_quant_channel(self.b as int),
    {
        (quant_channel(self.r), quant_channel(self.g), quant_channel(self.b))
    }
}

/// Quantize one channel.
fn quant_channel(c: i64) -> (q: u8)
    ensures
        q as int == spec_quant_channel(c as int),
{
    let wide: i128 = (c as i128) * 25599;
    let q: i128 = crate::fixed::tdiv_wide(wide, 100 * (FX_ONE as i128));
    if q < 0 {
        0
    } else if q > 255 {
        255
    } else {
        q as u8
    }
}

} // verus!
