//! The scale of one monitor, and the two pieces of arithmetic it appears in.

use crate::arith::{fits, toward_zero};
use vstd::prelude::*;

verus! {

/// The scale every metric of a theme is authored against.
pub const BASELINE_DPI: u32 = 96;

/// Default size of the interface font, in hundredths of a point: 11.25 pt.
pub const DEFAULT_FONT_CENTIPOINTS: u32 = 1125;

/// The dots per inch of one monitor.
#[derive(Debug, Clone, Copy, PartialEq, Eq, Structural)]
pub struct Dpi(pub u32);

/// `v` authored pixels at `dpi`: `v * dpi / 96` rounded to the nearest whole
/// pixel, a half rounding up for the non-negative counts a theme holds.
pub open spec fn scaled_96(v: int, dpi: int) -> int {
    toward_zero(v * dpi + 48, 96)
}

/// The pixel height of `centipoints` hundredths of a point at `dpi`: there are
/// 72 points to the inch, and a half rounds up.
pub open spec fn pixel_height(centipoints: int, dpi: int) -> int {
    (centipoints * dpi + 3600) / 7200
}

impl Dpi {
    /// The scale the metrics of a theme are authored at.
    pub fn baseline() -> (d: Dpi)
        ensures
            d.0 == BASELINE_DPI,
    {
        Dpi(BASELINE_DPI)
    }

    /// A scale as the system reports it.
    pub fn new(raw: u32) -> (d: Dpi)
        ensures
            d.0 == raw,
    {
        Dpi(raw)
    }

    /// The number itself, for the system calls that take one.
    pub fn raw(self) -> (r: u32)
        ensures
            r == self.0,
    {
        self.0
    }

    /// Whether an authored pixel count is still one on this monitor.
    pub fn can_scale_96(self, v: i32) -> (r: bool)
        ensures
            r == fits(scaled_96(v as int, self.0 as int)),
    {
        let scaled: i64 = self.scaled(v);
        i32::MIN as i64 <= scaled && scaled <= i32::MAX as i64
    }

    /// One pixel count authored at 96 dots per inch, scaled to this monitor and
    /// rounded to nearest.
    pub fn scale_96(self, v: i32) -> (r: i32)
        requires
            fits(scaled_96(v as int, self.0 as int)),
        ensures
            r == scaled_96(v as int, self.0 as int),
    {
        self.scaled(v) as i32
    }

    fn scaled(self, v: i32) -> (r: i64)
        ensures
            r == scaled_96(v as int, self.0 as int),
    {
        proof {
            assert(-0x8000_0000 * 0xFFFF_FFFF <= v * self.0 <= 0x7FFF_FFFF * 0xFFFF_FFFF)
                by (nonlinear_arith)
                requires
                    -0x8000_0000 <= v <= 0x7FFF_FFFF,
                    0 <= self.0 <= 0xFFFF_FFFF,
            ;
        }
        (v as i64 * self.0 as i64 + 48) / 96
    }

    /// A font size as a pixel height on this monitor.
    ///
    /// Positive; a caller that wants the height of a character rather than of
    /// its cell negates it.
    pub fn points_to_pixels(self, centipoints: u32) -> (r: i32)
        requires
            fits(pixel_height(centipoints as int, self.0 as int)),
        ensures
            r == pixel_height(centipoints as int, self.0 as int),
    {
        proof {
            assert(0 <= centipoints * self.0 <= 0xFFFF_FFFF * 0xFFFF_FFFF) by (nonlinear_arith)
                requires
                    0 <= centipoints <= 0xFFFF_FFFF,
                    0 <= self.0 <= 0xFFFF_FFFF,
            ;
        }
        let height: u128 = (centipoints as u128 * self.0 as u128 + 3600) / 7200;
        height as i32
    }
}

/// Scaling to the authored scale changes nothing.
pub proof fn baseline_scaling_is_the_identity(v: int)
    requires
        v >= 0,
    ensures
        scaled_96(v, BASELINE_DPI as int) == v,
{
}

/// A scaled count is within half a pixel of the exact one.
pub proof fn scaling_rounds_to_nearest(v: int, dpi: int)
    requires
        v >= 0,
        dpi >= 0,
    ensures
        -48 <= 96 * scaled_96(v, dpi) - v * dpi <= 48,
{
    assert(v * dpi >= 0) by (nonlinear_arith)
        requires
            v >= 0,
            dpi >= 0,
    ;
}

/// A larger count never scales to a smaller one.
pub proof fn scaling_keeps_order(v: int, w: int, dpi: int)
    requires
        0 <= v <= w,
        dpi >= 0,
    ensures
        scaled_96(v, dpi) <= scaled_96(w, dpi),
{
    assert(0 <= v * dpi <= w * dpi) by (nonlinear_arith)
        requires
            0 <= v <= w,
            dpi >= 0,
    ;
}

/// A scaled count is the nearest whole one, and the larger of the two where
/// the exact count lies half way between them.
pub proof fn a_half_pixel_scales_up(v: int, dpi: int)
    requires
        v * dpi >= 0,
    ensures
        -48 < 96 * scaled_96(v, dpi) - v * dpi <= 48,
{
}

/// A font's height is the nearest whole number of pixels, there being 72
/// points to the inch, and the larger of the two where the exact height lies
/// half way between them.
pub proof fn a_font_height_is_the_nearest(centipoints: int, dpi: int)
    requires
        centipoints * dpi >= 0,
    ensures
        -3600 < 7200 * pixel_height(centipoints, dpi) - centipoints * dpi <= 3600,
{
}

/// Below zero, half a pixel is added all the same and the fraction then dropped
/// toward zero, so that a count there never scales to less than it is.
pub proof fn a_negative_count_scales_toward_zero(v: int, dpi: int)
    requires
        v * dpi < -48,
    ensures
        48 <= 96 * scaled_96(v, dpi) - v * dpi < 144,
{
}

} // verus!
