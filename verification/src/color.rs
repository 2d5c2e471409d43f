//! Colours and the metrics derived from them.
//!
//! Every metric is a function of the colour alone. The fractional ones are
//! kept as exact fractions of integers, so nothing here is rounded but where
//! a definition says so.

use vstd::prelude::*;

verus! {

/// An 8-bit RGBA colour.
#[derive(Clone, Copy, Debug, PartialEq, Eq, Structural)]
pub struct Color {
    pub r: u8,
    pub g: u8,
    pub b: u8,
    pub a: u8,
}

/// A non-negative fraction `num / den`, not reduced.
#[derive(Clone, Copy, Debug, PartialEq, Eq, Structural)]
pub struct Fraction {
    pub num: u32,
    pub den: u32,
}

impl Fraction {
    /// The fraction is defined and lies in `[0, 1]`.
    pub open spec fn in_unit_interval(self) -> bool {
        0 < self.den && self.num <= self.den
    }
}

/// Luminance: `0.2126 R + 0.7152 G + 0.0722 B`, rounded down. Alpha plays no part.
pub open spec fn luminance(c: Color) -> int {
    (2126 * c.r + 7152 * c.g + 722 * c.b) / 10000
}

/// The product `R * G * B`.
pub open spec fn absolute(c: Color) -> int {
    c.r * c.g * c.b
}

/// The largest of three numbers.
pub open spec fn max3(x: int, y: int, z: int) -> int {
    if x >= y && x >= z {
        x
    } else if y >= z {
        y
    } else {
        z
    }
}

/// The smallest of three numbers.
pub open spec fn min3(x: int, y: int, z: int) -> int {
    if x <= y && x <= z {
        x
    } else if y <= z {
        y
    } else {
        z
    }
}

/// The largest of the three colour channels.
pub open spec fn max_channel(c: Color) -> int {
    max3(c.r as int, c.g as int, c.b as int)
}

/// The smallest of the three colour channels.
pub open spec fn min_channel(c: Color) -> int {
    min3(c.r as int, c.g as int, c.b as int)
}

/// Chroma on the channel scale: largest channel minus smallest, so 255 stands for 1.
pub open spec fn chroma(c: Color) -> int {
    max_channel(c) - min_channel(c)
}

/// Hue in degrees, rounded down.
///
/// Zero for a colour without chroma. Otherwise the sector is chosen by how
/// large the chroma is, not by which channel is the largest: above 1/2, then
/// above 1/4, then above 3/4, then the rest. The fraction of the sector is
/// taken from the distance of one channel to the largest, multiplied by 60,
/// and never wrapped back below 360.
pub open spec fn hue(c: Color) -> int {
    let top = max_channel(c);
    let d = chroma(c);
    if d == 0 {
        0
    } else if 2 * d > 255 {
        60 * (top - c.r) / d
    } else if 4 * d > 255 {
        60 * (top - c.g) / d + 120
    } else if 4 * d > 765 {
        60 * (top - c.b) / d + 240
    } else {
        60 * (top - c.r) / d + 360
    }
}

/// Lightness: the mean of the largest and the smallest channel, over 255.
pub open spec fn lightness(c: Color) -> Fraction {
    Fraction { num: (max_channel(c) + min_channel(c)) as u32, den: 510 }
}

/// Saturation: zero without chroma; else chroma over the sum of the largest and
/// smallest channel where lightness is under 1/2, and over what that sum lacks
/// to 2 elsewhere.
pub open spec fn saturation(c: Color) -> Fraction {
    let sum = max_channel(c) + min_channel(c);
    let d = chroma(c);
    if d == 0 {
        Fraction { num: 0, den: 1 }
    } else if sum < 255 {
        Fraction { num: d as u32, den: sum as u32 }
    } else {
        Fraction { num: d as u32, den: (510 - sum) as u32 }
    }
}

/// Hue, saturation, lightness and the alpha channel untouched.
pub open spec fn hsla(c: Color) -> (u32, Fraction, Fraction, u8) {
    (hue(c) as u32, saturation(c), lightness(c), c.a)
}

/// The quotient of sixty times a part by the whole is at most sixty.
proof fn lemma_sector_fraction(part: int, whole: int)
    by (nonlinear_arith)
    requires
        0 <= part <= whole,
        0 < whole,
    ensures
        0 <= 60 * part / whole <= 60,
{
}

/// Where a hue can fall: `[0, 60]` with chroma above 1/2, `[120, 180]` with
/// chroma above 1/4, `[360, 420]` below that, and nowhere else. The sector of
/// chroma above 3/4 is never entered, since the first has taken such a colour,
/// and no hue is negative.
pub proof fn lemma_hue_range(c: Color)
    ensures
        chroma(c) == 0 ==> hue(c) == 0,
        2 * chroma(c) > 255 ==> 0 <= hue(c) <= 60,
        2 * chroma(c) <= 255 < 4 * chroma(c) ==> 120 <= hue(c) <= 180,
        0 < 4 * chroma(c) <= 255 ==> 360 <= hue(c) <= 420,
        0 <= hue(c) <= 60 || 120 <= hue(c) <= 180 || 360 <= hue(c) <= 420,
{
    let d = chroma(c);
    if d > 0 {
        lemma_sector_fraction(max_channel(c) - c.r, d);
        lemma_sector_fraction(max_channel(c) - c.g, d);
    }
}

/// A colour whose three channels agree has hue zero and saturation zero.
pub proof fn lemma_achromatic(c: Color)
    requires
        c.r == c.g,
        c.g == c.b,
    ensures
        hue(c) == 0,
        saturation(c) == (Fraction { num: 0, den: 1 }),
        lightness(c) == (Fraction { num: (2 * c.r) as u32, den: 510 }),
{
}

/// Saturation and lightness are fractions in `[0, 1]`.
pub proof fn lemma_unit_fractions(c: Color)
    ensures
        saturation(c).in_unit_interval(),
        lightness(c).in_unit_interval(),
{
}

/// Luminance stays on the channel scale, and the product within `255^3`.
pub proof fn lemma_scalar_ranges(c: Color)
    ensures
        0 <= luminance(c) <= 255,
        0 <= absolute(c) <= 16581375,
{
    assert(0 <= c.r * c.g <= 65025) by (nonlinear_arith)
        requires
            0 <= c.r <= 255,
            0 <= c.g <= 255,
    ;
    assert(0 <= (c.r * c.g) * c.b <= 16581375) by (nonlinear_arith)
        requires
            0 <= c.r * c.g <= 65025,
            0 <= c.b <= 255,
    ;
}

/// No metric of the colour channels looks at alpha.
pub proof fn lemma_alpha_plays_no_part(c: Color, d: Color)
    requires
        c.r == d.r,
        c.g == d.g,
        c.b == d.b,
    ensures
        luminance(c) == luminance(d),
        absolute(c) == absolute(d),
        hue(c) == hue(d),
        saturation(c) == saturation(d),
        lightness(c) == lightness(d),
{
}

fn largest(x: u8, y: u8, z: u8) -> (m: u8)
    ensures
        m == max3(x as int, y as int, z as int),
{
    if x >= y && x >= z {
        x
    } else if y >= z {
        y
    } else {
        z
    }
}

fn smallest(x: u8, y: u8, z: u8) -> (m: u8)
    ensures
        m == min3(x as int, y as int, z as int),
{
    if x <= y && x <= z {
        x
    } else if y <= z {
        y
    } else {
        z
    }
}

/// Anything that carries one RGBA colour, and so has the metrics of that colour.
///
/// Each metric is a function of `rgba()` and of nothing else: two carriers of
/// one colour get one result, wherever they stand.
pub trait SingleColor {
    /// The colour carried.
    spec fn rgba(&self) -> Color;

    /// Hands out the colour carried.
    fn get_rgba(&self) -> (c: Color)
        ensures
            c == self.rgba(),
    ;

    /// Luminance of the colour carried.
    fn get_luminance(&self) -> (l: u32)
        ensures
            l == luminance(self.rgba()),
    {
        let c = self.get_rgba();
        (2126 * (c.r as u32) + 7152 * (c.g as u32) + 722 * (c.b as u32)) / 10000
    }

    /// Product of the three colour channels.
    fn get_absolute(&self) -> (p: u32)
        ensures
            p == absolute(self.rgba()),
    {
        let c = self.get_rgba();
        assert(c.r * c.g <= 65025) by (nonlinear_arith)
            requires
                c.r <= 255,
                c.g <= 255,
        ;
        let rg: u32 = c.r as u32 * c.g as u32;
        assert(rg * c.b <= 16581375) by (nonlinear_arith)
            requires
                rg <= 65025,
                c.b <= 255,
        ;
        rg * c.b as u32
    }

    /// Hue, saturation, lightness and alpha of the colour carried.
    fn get_hsla(&self) -> (h: (u32, Fraction, Fraction, u8))
        ensures
            h == hsla(self.rgba()),
    {
        let c = self.get_rgba();
        let top: u32 = largest(c.r, c.g, c.b) as u32;
        let low: u32 = smallest(c.r, c.g, c.b) as u32;
        let d: u32 = top - low;
        let sum: u32 = top + low;
        let hue: u32 = if d == 0 {
            0
        } else if 2 * d > 255 {
            60 * (top - c.r as u32) / d
        } else if 4 * d > 255 {
            60 * (top - c.g as u32) / d + 120
        } else if 4 * d > 765 {
            60 * (top - c.b as u32) / d + 240
        } else {
            60 * (top - c.r as u32) / d + 360
        };
        let lightness = Fraction { num: sum, den: 510 };
        let saturation = if d == 0 {
            Fraction { num: 0, den: 1 }
        } else if sum < 255 {
            Fraction { num: d, den: sum }
        } else {
            Fraction { num: d, den: 510 - sum }
        };
        (hue, saturation, lightness, c.a)
    }

    /// Hue of the colour carried, in degrees.
    fn get_hue(&self) -> (h: u32)
        ensures
            h == hue(self.rgba()),
            h == hsla(self.rgba()).0,
    {
        self.get_hsla().0
    }

    /// Saturation of the colour carried.
    fn get_saturation(&self) -> (s: Fraction)
        ensures
            s == saturation(self.rgba()),
            s == hsla(self.rgba()).1,
    {
        self.get_hsla().1
    }
}

impl SingleColor for Color {
    open spec fn rgba(&self) -> Color {
        *self
    }

    fn get_rgba(&self) -> (c: Color) {
        *self
    }
}

/// Red, green, blue and alpha, in that order.
impl SingleColor for [u8; 4] {
    open spec fn rgba(&self) -> Color {
        Color { r: self[0], g: self[1], b: self[2], a: self[3] }
    }

    fn get_rgba(&self) -> (c: Color) {
        Color { r: self[0], g: self[1], b: self[2], a: self[3] }
    }
}

} // verus!
