//! A colour, and the two blends the interface performs on one.

use crate::arith::within;
use vstd::prelude::*;

verus! {

/// A colour with eight bits to the channel; `a` is the opacity.
#[derive(Debug, Clone, Copy, PartialEq, Eq, Structural, Hash)]
pub struct Color {
    pub r: u8,
    pub g: u8,
    pub b: u8,
    pub a: u8,
}

/// One channel moved by `delta` and kept between 0 and 255.
pub open spec fn moved(channel: u8, delta: i16) -> u8 {
    within(channel + delta, 0, 255) as u8
}

/// One channel of a colour of opacity `a` laid over the same channel of an
/// opaque ground.
pub open spec fn mixed(front: u8, ground: u8, a: u8) -> u8 {
    ((front * a + ground * (255 - a)) / 255) as u8
}

impl Color {
    /// The opaque colour with these channels.
    pub open spec fn opaque(r: u8, g: u8, b: u8) -> Color {
        Color { r, g, b, a: 255 }
    }

    /// An opaque colour.
    pub fn from_rgb(r: u8, g: u8, b: u8) -> (c: Color)
        ensures
            c == Color::opaque(r, g, b),
    {
        Color { r, g, b, a: 255 }
    }

    /// The colour that shows whatever is behind it.
    pub fn transparent() -> (c: Color)
        ensures
            c == (Color { r: 0, g: 0, b: 0, a: 0 }),
    {
        Color { r: 0, g: 0, b: 0, a: 0 }
    }

    /// Every channel moved by `delta`.
    pub open spec fn moved(self, delta: i16) -> Color {
        Color {
            r: moved(self.r, delta),
            g: moved(self.g, delta),
            b: moved(self.b, delta),
            a: self.a,
        }
    }

    /// Shifts every channel by `delta`, clamped to `[0, 255]`, keeping alpha.
    ///
    /// A positive delta lightens, a negative one darkens; the step is the same
    /// on each channel, so a neutral grey stays neutral.
    #[must_use]
    pub fn shifted(self, delta: i16) -> (c: Color)
        ensures
            c == self.moved(delta),
    {
        Color {
            r: shift_channel(self.r, delta),
            g: shift_channel(self.g, delta),
            b: shift_channel(self.b, delta),
            a: self.a,
        }
    }

    /// This colour resolved against an opaque ground.
    pub open spec fn laid_over(self, ground: Color) -> Color {
        if self.a == 255 {
            Color::opaque(self.r, self.g, self.b)
        } else {
            Color::opaque(
                mixed(self.r, ground.r, self.a),
                mixed(self.g, ground.g, self.a),
                mixed(self.b, ground.b, self.a),
            )
        }
    }

    /// Blends `self` over an opaque ground, honouring alpha.
    #[must_use]
    pub fn over(self, ground: Color) -> (c: Color)
        ensures
            c == self.laid_over(ground),
    {
        if self.a == 255 {
            return Color::from_rgb(self.r, self.g, self.b);
        }
        Color::from_rgb(
            mix(self.r, ground.r, self.a),
            mix(self.g, ground.g, self.a),
            mix(self.b, ground.b, self.a),
        )
    }

    /// The colour as the drawing calls take it: blue, green, red, from the
    /// third byte down to the first.
    pub open spec fn colorref(self) -> int {
        self.b * 0x1_0000 + self.g * 0x100 + self.r
    }

    /// The number the drawing calls take for this colour: `0x00BBGGRR`.
    pub fn to_colorref(self) -> (n: u32)
        ensures
            n == self.colorref(),
    {
        self.b as u32 * 0x1_0000 + self.g as u32 * 0x100 + self.r as u32
    }
}

/// One channel shifted by `delta` and clamped to `[0, 255]`.
pub fn shift_channel(channel: u8, delta: i16) -> (r: u8)
    ensures
        r == moved(channel, delta),
{
    let v: i32 = channel as i32 + delta as i32;
    if v < 0 {
        0
    } else if v > 255 {
        255
    } else {
        v as u8
    }
}

proof fn mixing_stays_in_a_channel(front: u8, ground: u8, a: u8)
    ensures
        0 <= front * a <= 255 * a,
        0 <= ground * (255 - a) <= 255 * (255 - a),
        0 <= (front * a + ground * (255 - a)) / 255 <= 255,
{
    assert(0 <= front * a <= 255 * a) by (nonlinear_arith)
        requires
            0 <= front <= 255,
            0 <= a <= 255,
    ;
    assert(0 <= ground * (255 - a) <= 255 * (255 - a)) by (nonlinear_arith)
        requires
            0 <= ground <= 255,
            0 <= a <= 255,
    ;
}

fn mix(front: u8, ground: u8, a: u8) -> (r: u8)
    ensures
        r == mixed(front, ground, a),
{
    proof {
        mixing_stays_in_a_channel(front, ground, a);
    }
    let sum: u32 = front as u32 * a as u32 + ground as u32 * (255 - a as u32);
    (sum / 255) as u8
}

/// An opaque colour hides its ground, and a transparent one shows it.
pub proof fn opacity_decides_what_shows(c: Color, ground: Color)
    ensures
        c.a == 255 ==> c.laid_over(ground) == Color::opaque(c.r, c.g, c.b),
        c.a == 0 ==> c.laid_over(ground) == Color::opaque(ground.r, ground.g, ground.b),
{
    if c.a == 0 {
        assert(c.r * c.a == 0 && c.g * c.a == 0 && c.b * c.a == 0);
    }
}

/// A shift by a positive delta never darkens a channel, one by a negative
/// delta never lightens one, and no shift touches the opacity.
pub proof fn a_shift_moves_one_way(c: Color, delta: i16)
    ensures
        delta >= 0 ==> c.moved(delta).r >= c.r && c.moved(delta).g >= c.g && c.moved(delta).b
            >= c.b,
        delta <= 0 ==> c.moved(delta).r <= c.r && c.moved(delta).g <= c.g && c.moved(delta).b
            <= c.b,
        c.moved(delta).a == c.a,
{
}

/// A shift moves a channel by exactly its delta, as far as there is room for
/// it between black and white.
pub proof fn a_shift_is_exact_within_the_channel(c: Color, delta: i16)
    ensures
        0 <= c.r + delta <= 255 ==> c.moved(delta).r == c.r + delta,
        0 <= c.g + delta <= 255 ==> c.moved(delta).g == c.g + delta,
        0 <= c.b + delta <= 255 ==> c.moved(delta).b == c.b + delta,
        c.r + delta < 0 ==> c.moved(delta).r == 0,
        c.g + delta < 0 ==> c.moved(delta).g == 0,
        c.b + delta < 0 ==> c.moved(delta).b == 0,
        c.r + delta > 255 ==> c.moved(delta).r == 255,
        c.g + delta > 255 ==> c.moved(delta).g == 255,
        c.b + delta > 255 ==> c.moved(delta).b == 255,
        c.moved(delta).a == c.a,
{
}

/// A colour laid over another is opaque, and each of its channels is the mean
/// of the two weighed by the opacity, with the fraction dropped: 255 times it
/// lies within 254 below the weighed sum.
pub proof fn laying_over_weighs_by_opacity(c: Color, ground: Color)
    ensures
        c.laid_over(ground).a == 255,
        0 <= c.r * c.a + ground.r * (255 - c.a) - 255 * c.laid_over(ground).r < 255,
        0 <= c.g * c.a + ground.g * (255 - c.a) - 255 * c.laid_over(ground).g < 255,
        0 <= c.b * c.a + ground.b * (255 - c.a) - 255 * c.laid_over(ground).b < 255,
{
    mixing_stays_in_a_channel(c.r, ground.r, c.a);
    mixing_stays_in_a_channel(c.g, ground.g, c.a);
    mixing_stays_in_a_channel(c.b, ground.b, c.a);
    if c.a == 255 {
        assert(c.r * c.a == 255 * c.r && c.g * c.a == 255 * c.g && c.b * c.a == 255 * c.b);
        assert(ground.r * (255 - c.a) == 0 && ground.g * (255 - c.a) == 0 && ground.b * (255 - c.a)
            == 0);
    }
}

/// The number the drawing calls take holds red in its lowest byte, green in the
/// next and blue in the third, and nothing above.
pub proof fn a_colour_is_three_bytes(c: Color)
    ensures
        0 <= c.colorref() < 0x100_0000,
        c.colorref() % 0x100 == c.r,
        (c.colorref() / 0x100) % 0x100 == c.g,
        c.colorref() / 0x1_0000 == c.b,
{
}

} // verus!
