//! The theme: the palette, the shadow color, and the text metrics the
//! widgets lay glyphs out with.
//!
//! Text is placed on a left-to-right monospaced advance: a string of `n`
//! characters occupies `n * char_width` pixels at height `font_size`. The
//! host's renderer supplies the actual glyphs; these two numbers are what
//! the layout promises about them.

use vstd::prelude::*;
use crate::color::Color;

verus! {

/// Colors and text metrics shared by a whole element tree.
#[derive(Debug, PartialEq, Eq, Structural, Clone, Copy)]
pub struct UiTheme {
    pub font_size: u16,
    /// Horizontal advance of one character, in pixels.
    pub char_width: u16,
    pub palette_1: Color,
    pub palette_2: Color,
    pub palette_3: Color,
    pub palette_4: Color,
    pub palette_5: Color,
    pub shadow_color: Color,
}

/// The built-in palette: light grays to dark slate with a peach accent.
pub open spec fn default_theme() -> UiTheme {
    UiTheme {
        font_size: 18,
        char_width: 9,
        palette_1: Color { r: 0xe1, g: 0xe5, b: 0xee, a: 255 },
        palette_2: Color { r: 0xc7, g: 0xcc, b: 0xdb, a: 255 },
        palette_3: Color { r: 0x76, g: 0x7b, b: 0x91, a: 255 },
        palette_4: Color { r: 0x2a, g: 0x32, b: 0x4b, a: 255 },
        palette_5: Color { r: 0xf7, g: 0xc5, b: 0x9f, a: 255 },
        shadow_color: Color { r: 0, g: 0, b: 0, a: 120 },
    }
}

impl Default for UiTheme {
    fn default() -> (t: UiTheme)
        ensures
            t == default_theme(),
    {
        UiTheme {
            font_size: 18,
            char_width: 9,
            palette_1: Color { r: 0xe1, g: 0xe5, b: 0xee, a: 255 },
            palette_2: Color { r: 0xc7, g: 0xcc, b: 0xdb, a: 255 },
            palette_3: Color { r: 0x76, g: 0x7b, b: 0x91, a: 255 },
            palette_4: Color { r: 0x2a, g: 0x32, b: 0x4b, a: 255 },
            palette_5: Color { r: 0xf7, g: 0xc5, b: 0x9f, a: 255 },
            shadow_color: Color { r: 0, g: 0, b: 0, a: 120 },
        }
    }
}

impl UiTheme {
    /// The palette color with the given index, 1 through 5; any other
    /// index gives black.
    pub open spec fn palette_spec(self, palette: i32) -> Color {
        if palette == 1 {
            self.palette_1
        } else if palette == 2 {
            self.palette_2
        } else if palette == 3 {
            self.palette_3
        } else if palette == 4 {
            self.palette_4
        } else if palette == 5 {
            self.palette_5
        } else {
            Color { r: 0, g: 0, b: 0, a: 255 }
        }
    }

    /// A palette color with a signed tint added to each channel,
    /// saturating at the byte range; an index outside 1 through 5 gives
    /// plain black, untinted.
    pub fn palette_tint(&self, palette: i32, r: i32, g: i32, b: i32) -> (c: Color)
        ensures
            1 <= palette <= 5 ==> c == (Color {
                r: crate::color::tint_channel(self.palette_spec(palette).r, r as int),
                g: crate::color::tint_channel(self.palette_spec(palette).g, g as int),
                b: crate::color::tint_channel(self.palette_spec(palette).b, b as int),
                a: self.palette_spec(palette).a,
            }),
            !(1 <= palette <= 5) ==> c == (Color { r: 0, g: 0, b: 0, a: 255 }),
    {
        let base = if palette == 1 {
            self.palette_1
        } else if palette == 2 {
            self.palette_2
        } else if palette == 3 {
            self.palette_3
        } else if palette == 4 {
            self.palette_4
        } else if palette == 5 {
            self.palette_5
        } else {
            return Color::black();
        };
        crate::color::tint(&base, r, g, b)
    }

    /// Pixel width of `n` characters on the monospaced advance, clamped
    /// into the coordinate range.
    pub open spec fn text_width_spec(self, n: int) -> i64 {
        crate::num::clamp_px_spec(n * self.char_width)
    }

    /// The width a string of `len` characters occupies.
    pub fn text_width(&self, len: usize) -> (w: i64)
        ensures
            w == self.text_width_spec(len as int),
            0 <= w <= crate::num::COORD_LIMIT,
    {
        if len as u64 > 1_000_000_000_000 {
            proof {
                assert(len as int * self.char_width >= crate::num::COORD_LIMIT || self.char_width
                    == 0) by (nonlinear_arith)
                    requires
                        len as int > 1_000_000_000_000,
                ;
                assert(self.char_width == 0 ==> len as int * self.char_width == 0);
            }
            if self.char_width == 0 {
                0
            } else {
                crate::num::COORD_LIMIT
            }
        } else {
            proof {
                assert(0 <= len as int * self.char_width <= 1_000_000_000_000 * 65535)
                    by (nonlinear_arith)
                    requires
                        0 <= len as int <= 1_000_000_000_000,
                        0 <= self.char_width <= 65535,
                ;
            }
            let w = (len as i64) * (self.char_width as i64);
            crate::num::clamp_px(w)
        }
    }

    /// Pixel height of one text line.
    pub fn text_height(&self) -> (h: i64)
        ensures
            h == self.font_size as i64,
    {
        self.font_size as i64
    }
}

} // verus!
