//! Colours and their algebra: scaling by a lighting intensity and linear
//! interpolation, both clamped to the channel range.

use vstd::prelude::*;
use crate::fixed::{ONE, spec_clamp, product};

verus! {

/// A colour of three channels, each from 0 to 255.
#[derive(Clone, Copy, Debug, PartialEq, Eq)]
pub struct Color {
    pub r: u8,
    pub g: u8,
    pub b: u8,
}

/// One channel multiplied by a fixed-point factor: the exact product rounded
/// down, then clamped to the channel range.
pub open spec fn spec_scale_channel(c: u8, factor: i32) -> int {
    spec_clamp((c as int) * (factor as int) / (ONE as int), 0, 255)
}

/// A blend factor limited to the interval from zero to one.
pub open spec fn spec_blend_factor(t: i32) -> int {
    spec_clamp(t as int, 0, ONE as int)
}

/// One channel interpolated from `a` (at factor zero) to `b` (at factor one),
/// rounded to the nearest integer, halves upwards. The factor is clamped to
/// the interval from zero to one first.
pub open spec fn spec_lerp_channel(a: u8, b: u8, t: i32) -> int {
    let f = spec_blend_factor(t);
    ((a as int) * (ONE - f) + (b as int) * f + ONE / 2) / (ONE as int)
}

/// The interpolated channel never leaves the interval spanned by its two
/// endpoints, so it is a valid channel value for every blend factor.
pub proof fn lemma_lerp_channel_between(a: u8, b: u8, t: i32)
    ensures
        a <= b ==> a <= spec_lerp_channel(a, b, t) <= b,
        b <= a ==> b <= spec_lerp_channel(a, b, t) <= a,
        0 <= spec_lerp_channel(a, b, t) <= 255,
{
    let f = spec_blend_factor(t);
    let one = ONE as int;
    let lo: int = if a <= b { a as int } else { b as int };
    let hi: int = if a <= b { b as int } else { a as int };
    let mix = (a as int) * (one - f) + (b as int) * f;
    assert(lo * one <= mix <= hi * one) by (nonlinear_arith)
        requires
            0 <= f <= one,
            lo <= a <= hi,
            lo <= b <= hi,
            mix == (a as int) * (one - f) + (b as int) * f,
    ;
}

/// At factor zero the interpolated channel is `a`, at factor one it is `b`.
pub proof fn lemma_lerp_channel_ends(a: u8, b: u8)
    ensures
        spec_lerp_channel(a, b, 0) == a,
        spec_lerp_channel(a, b, ONE) == b,
{
    assert(spec_blend_factor(0) == 0);
    assert(spec_blend_factor(ONE) == 100_000);
    assert((a as int) * (100_000 - 0) + (b as int) * 0 == a * 100_000);
    assert((a as int) * (100_000 - 100_000) + (b as int) * 100_000 == b * 100_000);
}

/// A scaled channel is a valid channel value for every factor.
pub proof fn lemma_scale_channel_in_range(c: u8, factor: i32)
    ensures
        0 <= spec_scale_channel(c, factor) <= 255,
{
}

fn scale_channel(c: u8, factor: i32) -> (r: u8)
    ensures
        r == spec_scale_channel(c, factor),
{
    let exact: i64 = product(c as i32, factor);
    let q: i64 = match exact.checked_div_euclid(ONE as i64) {
        Some(q) => q,
        None => 0,
    };
    if q < 0 {
        0
    } else if q > 255 {
        255
    } else {
        q as u8
    }
}

fn lerp_channel(a: u8, b: u8, t: i32) -> (r: u8)
    ensures
        r == spec_lerp_channel(a, b, t),
{
    let f: i32 = if t < 0 {
        0
    } else if t > ONE {
        ONE
    } else {
        t
    };
    proof {
        lemma_lerp_channel_between(a, b, t);
    }
    let from_a: i64 = product(a as i32, ONE - f);
    let from_b: i64 = product(b as i32, f);
    proof {
        assert(0 <= from_a <= 255 * 100_000 && 0 <= from_b <= 255 * 100_000) by (nonlinear_arith)
            requires
                from_a == (a as int) * (100_000 - f),
                from_b == (b as int) * (f as int),
                0 <= f <= 100_000,
                0 <= a <= 255,
                0 <= b <= 255,
        ;
    }
    let mix: i64 = from_a + from_b + (ONE / 2) as i64;
    (mix / (ONE as i64)) as u8
}

impl Color {
    /// The colour with the given channels.
    pub fn new(r: u8, g: u8, b: u8) -> (c: Color)
        ensures
            c == (Color { r, g, b }),
    {
        Color { r, g, b }
    }

    /// The colour with no light in any channel.
    pub open spec fn spec_black() -> Color {
        Color { r: 0, g: 0, b: 0 }
    }

    /// This colour with every channel multiplied by `intensity`.
    pub open spec fn spec_scaled(self, intensity: i32) -> Color {
        Color {
            r: spec_scale_channel(self.r, intensity) as u8,
            g: spec_scale_channel(self.g, intensity) as u8,
            b: spec_scale_channel(self.b, intensity) as u8,
        }
    }

    /// The colour at blend factor `t` on the way from this colour to `other`.
    pub open spec fn spec_lerp(self, other: Color, t: i32) -> Color {
        Color {
            r: spec_lerp_channel(self.r, other.r, t) as u8,
            g: spec_lerp_channel(self.g, other.g, t) as u8,
            b: spec_lerp_channel(self.b, other.b, t) as u8,
        }
    }

    /// Multiplies every channel by a fixed-point intensity. A negative
    /// intensity gives black; one above `ONE` brightens up to the channel
    /// maximum and no further.
    pub fn scaled(self, intensity: i32) -> (c: Color)
        ensures
            c == self.spec_scaled(intensity),
    {
        Color {
            r: scale_channel(self.r, intensity),
            g: scale_channel(self.g, intensity),
            b: scale_channel(self.b, intensity),
        }
    }

    /// Interpolates linearly from this colour to `other`. A factor below zero
    /// counts as zero and one above `ONE` as `ONE`.
    pub fn lerp(&self, other: &Color, t: i32) -> (c: Color)
        ensures
            c == self.spec_lerp(*other, t),
    {
        Color {
            r: lerp_channel(self.r, other.r, t),
            g: lerp_channel(self.g, other.g, t),
            b: lerp_channel(self.b, other.b, t),
        }
    }
}

/// Scaling by zero intensity gives black, whatever the colour.
pub proof fn lemma_scaled_by_zero_is_black(c: Color)
    ensures
        c.spec_scaled(0) == Color::spec_black(),
{
    assert((c.r as int) * 0 == 0);
}

/// Scaling by an intensity of one keeps the colour.
pub proof fn lemma_scaled_by_one_is_same(c: Color)
    ensures
        c.spec_scaled(ONE) == c,
{
}

/// Interpolation reaches its endpoints: factor zero gives the first colour,
/// factor one the second.
pub proof fn lemma_lerp_endpoints(a: Color, b: Color)
    ensures
        a.spec_lerp(b, 0) == a,
        a.spec_lerp(b, ONE) == b,
{
    lemma_lerp_channel_ends(a.r, b.r);
    lemma_lerp_channel_ends(a.g, b.g);
    lemma_lerp_channel_ends(a.b, b.b);
}

} // verus!
