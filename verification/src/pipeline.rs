//! The color pipeline: pixel state to transmission bytes.
//!
//! Every pixel is composited from a black baseline toward its own color
//! with the blend factor `alpha * brightness`, in linear light, and the
//! three composited channels are written as one byte each, in R, G, B
//! order, at three times the pixel's flat index.  With `as_srgb` set the
//! composited linear channels are gamma-encoded through the sRGB
//! transfer function first; otherwise the linear value itself becomes
//! the byte.

use vstd::prelude::*;

use crate::color::lemma_scale_monotone;
use crate::color::scale8;
use crate::color::spec_scale;
use crate::color::Rgba;
use crate::grid::PixelGrid;
use crate::GRID_SIZE;

verus! {

/// Process-wide rendering parameters, set by the control plane and read
/// once per encode.  `brightness` is a global dimmer in the fixed-point
/// unit scale (`255` is full); `as_srgb` selects gamma encoding.
#[derive(Clone, Copy, PartialEq, Eq, Structural, Debug)]
pub struct ControllerConfig {
    pub brightness: u8,
    pub as_srgb: bool,
}

impl Default for ControllerConfig {
    /// Full brightness, linear output.
    fn default() -> (r: ControllerConfig)
        ensures
            r == (ControllerConfig { brightness: 255u8, as_srgb: false }),
    {
        ControllerConfig { brightness: 255, as_srgb: false }
    }
}

/// The sRGB gamma encoding of a linear 8-bit channel, as the palette
/// library computes it.  The curve itself is left unnamed beyond its
/// fixed endpoints below; the crate only relies on it being a function
/// of the channel value alone.
pub uninterp spec fn srgb_gamma_of(c: u8) -> u8;

/// The sRGB gamma encoding with its fixed endpoints: a black channel
/// encodes to `0` and a saturated channel to `255` (the transfer
/// function maps `0.0` to `0.0` and `1.0` to `1.0`), every other value
/// is given by the curve.
pub open spec fn spec_srgb_encode(c: u8) -> u8 {
    if c == 0 {
        0
    } else if c == 255 {
        255
    } else {
        srgb_gamma_of(c)
    }
}

/// Relies on palette's sRGB transfer function (`Srgb::from_linear`,
/// with `into_format` scaling the 8-bit channel to `[0, 1]` first): the
/// result depends on the channel value alone, `0` encodes to `0` and
/// `255` to `255`.
#[verifier::external_body]
fn srgb_encode(c: u8) -> (r: u8)
    ensures
        0 < c < 255 ==> r == srgb_gamma_of(c),
        r == spec_srgb_encode(c),
{
    let linear: palette::LinSrgb = palette::LinSrgb::new(c, c, c).into_format();
    let encoded: palette::Srgb<u8> = palette::Srgb::from_linear(linear);
    encoded.red
}

/// The blend factor a pixel is driven with: its own coverage times the
/// global dimmer, in the fixed-point unit scale.
pub open spec fn spec_blend_factor(alpha: u8, brightness: u8) -> int {
    spec_scale(alpha as int, brightness as int)
}

/// One composited linear channel: the channel blended from black by the
/// blend factor.
pub open spec fn spec_composite(c: u8, alpha: u8, brightness: u8) -> int {
    spec_scale(c as int, spec_blend_factor(alpha, brightness))
}

/// One output byte of the pipeline.
pub open spec fn spec_encode_channel(c: u8, alpha: u8, cfg: ControllerConfig) -> u8 {
    if cfg.as_srgb {
        spec_srgb_encode(spec_composite(c, alpha, cfg.brightness) as u8)
    } else {
        spec_composite(c, alpha, cfg.brightness) as u8
    }
}

/// The three output bytes of one pixel, in R, G, B order.
pub open spec fn spec_encode_pixel(p: Rgba, cfg: ControllerConfig) -> Seq<u8> {
    seq![
        spec_encode_channel(p.red, p.alpha, cfg),
        spec_encode_channel(p.green, p.alpha, cfg),
        spec_encode_channel(p.blue, p.alpha, cfg),
    ]
}

/// Encode one pixel to its three transmission bytes.
pub fn encode_pixel(p: &Rgba, cfg: &ControllerConfig) -> (r: (u8, u8, u8))
    ensures
        r.0 == spec_encode_channel(p.red, p.alpha, *cfg),
        r.1 == spec_encode_channel(p.green, p.alpha, *cfg),
        r.2 == spec_encode_channel(p.blue, p.alpha, *cfg),
{
    let factor: u8 = scale8(p.alpha, cfg.brightness);
    let red: u8 = scale8(p.red, factor);
    let green: u8 = scale8(p.green, factor);
    let blue: u8 = scale8(p.blue, factor);
    if cfg.as_srgb {
        (srgb_encode(red), srgb_encode(green), srgb_encode(blue))
    } else {
        (red, green, blue)
    }
}

/// Encode the whole grid into the write buffer: pixel `i`'s bytes land
/// at offsets `3 i`, `3 i + 1`, `3 i + 2`.  Only the buffer changes.
pub fn encode_grid(grid: &PixelGrid, cfg: &ControllerConfig, buffer: &mut Vec<u8>)
    requires
        grid.wf(),
        old(buffer)@.len() == 3 * GRID_SIZE,
    ensures
        final(buffer)@.len() == 3 * GRID_SIZE,
        forall|i: int|
            0 <= i < GRID_SIZE ==> {
                &&& final(buffer)@[3 * i] == spec_encode_pixel(grid@[i], *cfg)[0]
                &&& final(buffer)@[3 * i + 1] == spec_encode_pixel(grid@[i], *cfg)[1]
                &&& final(buffer)@[3 * i + 2] == spec_encode_pixel(grid@[i], *cfg)[2]
            },
{
    let mut i: usize = 0;
    while i < GRID_SIZE
        invariant
            grid.wf(),
            i <= GRID_SIZE,
            buffer@.len() == 3 * GRID_SIZE,
            forall|j: int|
                0 <= j < i ==> {
                    &&& buffer@[3 * j] == spec_encode_pixel(grid@[j], *cfg)[0]
                    &&& buffer@[3 * j + 1] == spec_encode_pixel(grid@[j], *cfg)[1]
                    &&& buffer@[3 * j + 2] == spec_encode_pixel(grid@[j], *cfg)[2]
                },
        decreases GRID_SIZE - i,
    {
        let p = grid.get_flat(i);
        let (r, g, b) = encode_pixel(&p, cfg);
        buffer.set(3 * i, r);
        buffer.set(3 * i + 1, g);
        buffer.set(3 * i + 2, b);
        i = i + 1;
    }
}

/// For a fixed color and alpha, and linear output, every encoded
/// channel value is monotonically non-decreasing in the global
/// brightness.
pub proof fn lemma_encode_monotone_brightness(p: Rgba, b1: u8, b2: u8, as_srgb: bool)
    requires
        b1 <= b2,
    ensures
        !as_srgb ==> {
            let c1 = ControllerConfig { brightness: b1, as_srgb };
            let c2 = ControllerConfig { brightness: b2, as_srgb };
            &&& spec_encode_channel(p.red, p.alpha, c1) <= spec_encode_channel(p.red, p.alpha, c2)
            &&& spec_encode_channel(p.green, p.alpha, c1) <= spec_encode_channel(
                p.green,
                p.alpha,
                c2,
            )
            &&& spec_encode_channel(p.blue, p.alpha, c1) <= spec_encode_channel(
                p.blue,
                p.alpha,
                c2,
            )
        },
        spec_composite(p.red, p.alpha, b1) <= spec_composite(p.red, p.alpha, b2),
        spec_composite(p.green, p.alpha, b1) <= spec_composite(p.green, p.alpha, b2),
        spec_composite(p.blue, p.alpha, b1) <= spec_composite(p.blue, p.alpha, b2),
{
    crate::color::lemma_scale_bounds(p.alpha as int, b1 as int);
    crate::color::lemma_scale_bounds(p.alpha as int, b2 as int);
    lemma_scale_monotone(p.alpha as int, b1 as int, b2 as int);
    lemma_scale_monotone(p.red as int, spec_blend_factor(p.alpha, b1), spec_blend_factor(
        p.alpha,
        b2,
    ));
    lemma_scale_monotone(p.green as int, spec_blend_factor(p.alpha, b1), spec_blend_factor(
        p.alpha,
        b2,
    ));
    lemma_scale_monotone(p.blue as int, spec_blend_factor(p.alpha, b1), spec_blend_factor(
        p.alpha,
        b2,
    ));
    crate::color::lemma_scale_bounds(p.red as int, spec_blend_factor(p.alpha, b1));
    crate::color::lemma_scale_bounds(p.red as int, spec_blend_factor(p.alpha, b2));
    crate::color::lemma_scale_bounds(p.green as int, spec_blend_factor(p.alpha, b1));
    crate::color::lemma_scale_bounds(p.green as int, spec_blend_factor(p.alpha, b2));
    crate::color::lemma_scale_bounds(p.blue as int, spec_blend_factor(p.alpha, b1));
    crate::color::lemma_scale_bounds(p.blue as int, spec_blend_factor(p.alpha, b2));
}

/// A pixel with `alpha == 0` always encodes to `(0, 0, 0)`, whatever
/// its color, the brightness, or the encoding mode.
pub proof fn lemma_alpha_zero_encodes_black(p: Rgba, cfg: ControllerConfig)
    requires
        p.alpha == 0,
    ensures
        spec_encode_pixel(p, cfg) == seq![0u8, 0u8, 0u8],
{
    assert(spec_blend_factor(0, cfg.brightness) == 0) by {
        assert(0 * (cfg.brightness as int) == 0) by (nonlinear_arith);
    }
    assert(spec_composite(p.red, 0, cfg.brightness) == 0) by {
        assert((p.red as int) * 0 == 0) by (nonlinear_arith);
    }
    assert(spec_composite(p.green, 0, cfg.brightness) == 0) by {
        assert((p.green as int) * 0 == 0) by (nonlinear_arith);
    }
    assert(spec_composite(p.blue, 0, cfg.brightness) == 0) by {
        assert((p.blue as int) * 0 == 0) by (nonlinear_arith);
    }
    assert(spec_encode_pixel(p, cfg) =~= seq![0u8, 0u8, 0u8]);
}

/// The two encoding modes differ exactly by the gamma curve: with
/// `as_srgb` set, every output byte is the sRGB encoding of the byte
/// the linear mode would have produced.  The curve is not the identity,
/// so the modes produce different bytes wherever the curve moves the
/// composited value.
pub proof fn lemma_srgb_mode_applies_curve(p: Rgba, brightness: u8)
    ensures
        ({
            let lin = ControllerConfig { brightness, as_srgb: false };
            let gam = ControllerConfig { brightness, as_srgb: true };
            &&& spec_encode_pixel(p, gam)[0] == spec_srgb_encode(spec_encode_pixel(p, lin)[0])
            &&& spec_encode_pixel(p, gam)[1] == spec_srgb_encode(spec_encode_pixel(p, lin)[1])
            &&& spec_encode_pixel(p, gam)[2] == spec_srgb_encode(spec_encode_pixel(p, lin)[2])
        }),
{
}

/// A grid of default (fully transparent black) pixels encodes to an
/// all-zero write buffer, whatever the brightness and encoding mode.
pub proof fn lemma_default_grid_encodes_zero(g: Seq<Rgba>, cfg: ControllerConfig, buf: Seq<u8>)
    requires
        g.len() == GRID_SIZE,
        buf.len() == 3 * GRID_SIZE,
        forall|i: int| 0 <= i < GRID_SIZE ==> g[i] == Rgba::spec_default(),
        forall|i: int|
            0 <= i < GRID_SIZE ==> {
                &&& buf[3 * i] == spec_encode_pixel(g[i], cfg)[0]
                &&& buf[3 * i + 1] == spec_encode_pixel(g[i], cfg)[1]
                &&& buf[3 * i + 2] == spec_encode_pixel(g[i], cfg)[2]
            },
    ensures
        forall|k: int| 0 <= k < buf.len() ==> buf[k] == 0u8,
{
    assert forall|k: int| 0 <= k < buf.len() implies buf[k] == 0u8 by {
        let i = k / 3;
        assert(0 <= i < GRID_SIZE);
        lemma_alpha_zero_encodes_black(g[i], cfg);
        assert(k == 3 * i || k == 3 * i + 1 || k == 3 * i + 2);
    }
}

} // verus!
