//! Colors as 8-bit RGBA values, and the small derivations the widgets use:
//! a contrast (black-or-white) text color, linear mixing, and alpha or
//! channel adjustment.

use vstd::prelude::*;

verus! {

/// An sRGB color with alpha, one byte per channel.
#[derive(Debug, PartialEq, Eq, Structural, Clone, Copy)]
pub struct Color {
    pub r: u8,
    pub g: u8,
    pub b: u8,
    pub a: u8,
}

impl Color {
    /// An opaque color from its channels.
    pub fn rgb(r: u8, g: u8, b: u8) -> (c: Color)
        ensures
            c == (Color { r, g, b, a: 255 }),
    {
        Color { r, g, b, a: 255 }
    }

    /// A color from all four channels.
    pub fn rgba(r: u8, g: u8, b: u8, a: u8) -> (c: Color)
        ensures
            c == (Color { r, g, b, a }),
    {
        Color { r, g, b, a }
    }

    /// An opaque color from a `0xRRGGBB` value.
    pub fn from_hex(hex: u32) -> (c: Color)
        ensures
            c.r == (hex / 0x10000) % 0x100,
            c.g == (hex / 0x100) % 0x100,
            c.b == hex % 0x100,
            c.a == 255,
    {
        Color {
            r: ((hex / 0x10000) % 0x100) as u8,
            g: ((hex / 0x100) % 0x100) as u8,
            b: (hex % 0x100) as u8,
            a: 255,
        }
    }

    pub fn black() -> (c: Color)
        ensures
            c == (Color { r: 0, g: 0, b: 0, a: 255 }),
    {
        Color { r: 0, g: 0, b: 0, a: 255 }
    }

    pub fn white() -> (c: Color)
        ensures
            c == (Color { r: 255, g: 255, b: 255, a: 255 }),
    {
        Color { r: 255, g: 255, b: 255, a: 255 }
    }

    pub fn gray() -> (c: Color)
        ensures
            c == (Color { r: 130, g: 130, b: 130, a: 255 }),
    {
        Color { r: 130, g: 130, b: 130, a: 255 }
    }

    pub fn light_gray() -> (c: Color)
        ensures
            c == (Color { r: 200, g: 200, b: 200, a: 255 }),
    {
        Color { r: 200, g: 200, b: 200, a: 255 }
    }

    pub fn blue() -> (c: Color)
        ensures
            c == (Color { r: 0, g: 121, b: 241, a: 255 }),
    {
        Color { r: 0, g: 121, b: 241, a: 255 }
    }
}

/// Perceived brightness of a color, scaled by 1000: the BT.601 luma
/// weights 0.299 / 0.587 / 0.114 applied to the byte channels.
pub open spec fn brightness_spec(c: Color) -> int {
    299 * c.r + 587 * c.g + 114 * c.b
}

/// Whether a background is bright enough that black text reads better on
/// it than white text (brightness above 0.7294 of full scale).
pub open spec fn is_bright(c: Color) -> bool {
    brightness_spec(c) > 185997
}

/// Black on a bright background, white on a dark one.
pub open spec fn contrast_color_spec(c: Color) -> Color {
    if is_bright(c) {
        Color { r: 0, g: 0, b: 0, a: 255 }
    } else {
        Color { r: 255, g: 255, b: 255, a: 255 }
    }
}

/// The black-or-white color that contrasts with the given background.
pub fn contrast_color(bg_color: &Color) -> (r: Color)
    ensures
        r == contrast_color_spec(*bg_color),
{
    let brightness: u32 = 299 * (bg_color.r as u32) + 587 * (bg_color.g as u32) + 114 * (
    bg_color.b as u32);
    if brightness > 185997 {
        Color::black()
    } else {
        Color::white()
    }
}

/// The same color with its alpha channel replaced.
pub fn adjust_alpha(color: &Color, alpha: u8) -> (r: Color)
    ensures
        r == (Color { a: alpha, ..*color }),
{
    Color { r: color.r, g: color.g, b: color.b, a: alpha }
}

/// One channel of a per-mille linear mix.
pub open spec fn mix_channel(c1: u8, c2: u8, percent: int) -> u8 {
    (((1000 - percent) * c1 + percent * c2) / 1000) as u8
}

/// A per-mille linear mix of two colors: `0` gives the first color, `1000`
/// the second, values in between interpolate every channel (truncating).
pub open spec fn mix_colors_spec(c1: Color, c2: Color, percent: int) -> Color {
    if percent <= 0 {
        c1
    } else if percent >= 1000 {
        c2
    } else {
        Color {
            r: mix_channel(c1.r, c2.r, percent),
            g: mix_channel(c1.g, c2.g, percent),
            b: mix_channel(c1.b, c2.b, percent),
            a: mix_channel(c1.a, c2.a, percent),
        }
    }
}

/// Mix two colors, `percent` in per-mille of the second color.
pub fn mix_colors(color_1: &Color, color_2: &Color, percent: i64) -> (r: Color)
    ensures
        r == mix_colors_spec(*color_1, *color_2, percent as int),
{
    if percent <= 0 {
        *color_1
    } else if percent >= 1000 {
        *color_2
    } else {
        Color {
            r: mix_channel_exec(color_1.r, color_2.r, percent as u32),
            g: mix_channel_exec(color_1.g, color_2.g, percent as u32),
            b: mix_channel_exec(color_1.b, color_2.b, percent as u32),
            a: mix_channel_exec(color_1.a, color_2.a, percent as u32),
        }
    }
}

fn mix_channel_exec(c1: u8, c2: u8, percent: u32) -> (r: u8)
    requires
        0 < percent < 1000,
    ensures
        r == mix_channel(c1, c2, percent as int),
{
    proof {
        assert((1000 - percent) * c1 <= (1000 - percent) * 255 && percent * c2 <= percent * 255)
            by (nonlinear_arith)
            requires
                0 < percent < 1000,
                c1 <= 255,
                c2 <= 255,
        ;
    }
    let sum: u32 = (1000 - percent) * (c1 as u32) + percent * (c2 as u32);
    proof {
        assert(sum / 1000 <= 255) by (nonlinear_arith)
            requires
                sum <= 255000,
        ;
    }
    (sum / 1000) as u8
}

/// Add a signed tint to one channel, saturating at the byte range.
pub open spec fn tint_channel(c: u8, d: int) -> u8 {
    if c + d > 255 {
        255u8
    } else if c + d < 0 {
        0u8
    } else {
        (c + d) as u8
    }
}

/// Add a signed tint to every color channel, saturating; alpha is kept.
pub fn tint(color: &Color, dr: i32, dg: i32, db: i32) -> (r: Color)
    ensures
        r == (Color {
            r: tint_channel(color.r, dr as int),
            g: tint_channel(color.g, dg as int),
            b: tint_channel(color.b, db as int),
            a: color.a,
        }),
{
    Color {
        r: tint_channel_exec(color.r, dr),
        g: tint_channel_exec(color.g, dg),
        b: tint_channel_exec(color.b, db),
        a: color.a,
    }
}

fn tint_channel_exec(c: u8, d: i32) -> (r: u8)
    ensures
        r == tint_channel(c, d as int),
{
    let v: i64 = c as i64 + d as i64;
    if v > 255 {
        255
    } else if v < 0 {
        0
    } else {
        v as u8
    }
}

} // verus!
