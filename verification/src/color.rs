//! Pixel color values.
//!
//! A pixel holds three linear-light channels and an independent
//! alpha/coverage channel.  Every channel is an 8-bit fixed-point value:
//! `x` stands for the real number `x / 255`, so `0` is none and `255` is
//! full.  The blend operation used throughout the crate is a linear
//! interpolation in this fixed-point scale, rounded to nearest.

use vstd::prelude::*;

verus! {

/// A pixel: linear-light red, green and blue plus an alpha/coverage
/// channel, each in fixed-point `0..=255` standing for `0..=1`.
#[derive(Clone, Copy, PartialEq, Eq, Structural, Debug)]
pub struct Rgba {
    pub red: u8,
    pub green: u8,
    pub blue: u8,
    pub alpha: u8,
}

impl Rgba {
    /// Fully transparent black, the state every pixel starts in.
    pub open spec fn spec_default() -> Rgba {
        Rgba { red: 0, green: 0, blue: 0, alpha: 0 }
    }

    pub fn new(red: u8, green: u8, blue: u8, alpha: u8) -> (r: Rgba)
        ensures
            r == (Rgba { red, green, blue, alpha }),
    {
        Rgba { red, green, blue, alpha }
    }

    /// Fully opaque color from its three channels.
    pub fn opaque(red: u8, green: u8, blue: u8) -> (r: Rgba)
        ensures
            r == (Rgba { red, green, blue, alpha: 255u8 }),
    {
        Rgba { red, green, blue, alpha: 255 }
    }

    /// Blend `self` toward `to` by `factor / 255`, every channel (alpha
    /// included) interpolated in linear light.
    pub fn mix(&self, to: &Rgba, factor: u8) -> (r: Rgba)
        ensures
            r == spec_mix(*self, *to, factor),
    {
        Rgba {
            red: lerp8(self.red, to.red, factor),
            green: lerp8(self.green, to.green, factor),
            blue: lerp8(self.blue, to.blue, factor),
            alpha: lerp8(self.alpha, to.alpha, factor),
        }
    }
}

impl Default for Rgba {
    /// Fully transparent black.
    fn default() -> (r: Rgba)
        ensures
            r == Rgba::spec_default(),
    {
        Rgba { red: 0, green: 0, blue: 0, alpha: 0 }
    }
}

/// Rounded fixed-point product: the real product `x/255 * y/255`,
/// scaled back to `0..=255` and rounded to nearest.
pub open spec fn spec_scale(x: int, y: int) -> int {
    (x * y + 127) / 255
}

/// Rounded linear interpolation from `x` to `y` by `f / 255`.
pub open spec fn spec_lerp(x: int, y: int, f: int) -> int {
    (x * (255 - f) + y * f + 127) / 255
}

/// The fixed-point product of two channel values stays a channel value.
pub proof fn lemma_scale_bounds(x: int, y: int)
    requires
        0 <= x <= 255,
        0 <= y <= 255,
    ensures
        0 <= spec_scale(x, y) <= 255,
{
    assert(x * y <= 255 * 255) by (nonlinear_arith)
        requires 0 <= x <= 255 && 0 <= y <= 255;
    assert(x * y >= 0) by (nonlinear_arith)
        requires 0 <= x && 0 <= y;
}

/// The fixed-point product grows with either argument.
pub proof fn lemma_scale_monotone(x: int, y1: int, y2: int)
    requires
        0 <= x,
        0 <= y1 <= y2,
    ensures
        spec_scale(x, y1) <= spec_scale(x, y2),
{
    assert(x * y1 <= x * y2) by (nonlinear_arith)
        requires 0 <= x && y1 <= y2;
    assert((x * y1 + 127) / 255 <= (x * y2 + 127) / 255);
}

/// The interpolation of two channel values stays a channel value.
pub proof fn lemma_lerp_bounds(x: int, y: int, f: int)
    requires
        0 <= x <= 255,
        0 <= y <= 255,
        0 <= f <= 255,
    ensures
        0 <= spec_lerp(x, y, f) <= 255,
{
    assert(x * (255 - f) + y * f <= 255 * 255) by (nonlinear_arith)
        requires 0 <= x <= 255 && 0 <= y <= 255 && 0 <= f <= 255;
    assert(x * (255 - f) + y * f >= 0) by (nonlinear_arith)
        requires 0 <= x && 0 <= y && 0 <= f <= 255;
}

/// Fixed-point scale of two channel values, rounded to nearest.
pub fn scale8(x: u8, y: u8) -> (r: u8)
    ensures
        r == spec_scale(x as int, y as int),
{
    proof {
        lemma_scale_bounds(x as int, y as int);
    }
    (((x as u32) * (y as u32) + 127) / 255) as u8
}

/// Fixed-point linear interpolation from `x` to `y` by `f / 255`,
/// rounded to nearest.
pub fn lerp8(x: u8, y: u8, f: u8) -> (r: u8)
    ensures
        r == spec_lerp(x as int, y as int, f as int),
{
    proof {
        lemma_lerp_bounds(x as int, y as int, f as int);
    }
    (((x as u32) * (255 - f as u32) + (y as u32) * (f as u32) + 127) / 255) as u8
}

/// The blend of two pixels, channel by channel.
pub open spec fn spec_mix(from: Rgba, to: Rgba, factor: u8) -> Rgba {
    Rgba {
        red: spec_lerp(from.red as int, to.red as int, factor as int) as u8,
        green: spec_lerp(from.green as int, to.green as int, factor as int) as u8,
        blue: spec_lerp(from.blue as int, to.blue as int, factor as int) as u8,
        alpha: spec_lerp(from.alpha as int, to.alpha as int, factor as int) as u8,
    }
}

} // verus!
