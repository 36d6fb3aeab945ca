//! Draw commands: the render pass produces plain values describing filled
//! rectangles, outlines, regular polygons, lines and text runs, and the
//! host forwards them to its graphics backend. `DrawOp` is the
//! mathematical image of a command; the render contracts speak of
//! sequences of `DrawOp`.

use vstd::prelude::*;
use crate::color::Color;

verus! {

/// One drawing instruction, in screen pixels.
#[derive(Debug, Clone)]
pub enum DrawCmd {
    /// A filled axis-aligned rectangle.
    Rect { x: i64, y: i64, w: i64, h: i64, color: Color },
    /// A rectangle outline with the given stroke width.
    RectLines { x: i64, y: i64, w: i64, h: i64, thickness: i64, color: Color },
    /// A filled regular polygon around a center point.
    Poly { x: i64, y: i64, sides: u32, radius: i64, color: Color },
    /// A regular polygon outline.
    PolyLines { x: i64, y: i64, sides: u32, radius: i64, thickness: i64, color: Color },
    /// A straight line segment with the given stroke width.
    Line { x1: i64, y1: i64, x2: i64, y2: i64, thickness: i64, color: Color },
    /// A run of text drawn left to right from a baseline point.
    Text { chars: Vec<char>, x: i64, y: i64, font_size: u16, color: Color },
}

/// The mathematical image of a drawing instruction.
pub enum DrawOp {
    Rect { x: int, y: int, w: int, h: int, color: Color },
    RectLines { x: int, y: int, w: int, h: int, thickness: int, color: Color },
    Poly { x: int, y: int, sides: u32, radius: int, color: Color },
    PolyLines { x: int, y: int, sides: u32, radius: int, thickness: int, color: Color },
    Line { x1: int, y1: int, x2: int, y2: int, thickness: int, color: Color },
    Text { chars: Seq<char>, x: int, y: int, font_size: u16, color: Color },
}

/// What a drawing instruction means.
pub open spec fn cmd_view(c: DrawCmd) -> DrawOp {
    match c {
        DrawCmd::Rect { x, y, w, h, color } => DrawOp::Rect {
            x: x as int,
            y: y as int,
            w: w as int,
            h: h as int,
            color,
        },
        DrawCmd::RectLines { x, y, w, h, thickness, color } => DrawOp::RectLines {
            x: x as int,
            y: y as int,
            w: w as int,
            h: h as int,
            thickness: thickness as int,
            color,
        },
        DrawCmd::Poly { x, y, sides, radius, color } => DrawOp::Poly {
            x: x as int,
            y: y as int,
            sides,
            radius: radius as int,
            color,
        },
        DrawCmd::PolyLines { x, y, sides, radius, thickness, color } => DrawOp::PolyLines {
            x: x as int,
            y: y as int,
            sides,
            radius: radius as int,
            thickness: thickness as int,
            color,
        },
        DrawCmd::Line { x1, y1, x2, y2, thickness, color } => DrawOp::Line {
            x1: x1 as int,
            y1: y1 as int,
            x2: x2 as int,
            y2: y2 as int,
            thickness: thickness as int,
            color,
        },
        DrawCmd::Text { chars, x, y, font_size, color } => DrawOp::Text {
            chars: chars@,
            x: x as int,
            y: y as int,
            font_size,
            color,
        },
    }
}

/// What a sequence of drawing instructions means.
pub open spec fn cmds_view(s: Seq<DrawCmd>) -> Seq<DrawOp> {
    s.map_values(|c: DrawCmd| cmd_view(c))
}

/// The characters of a string, in order.
pub fn str_to_chars(s: &str) -> (r: Vec<char>)
    ensures
        r@ == s@,
{
    let mut out: Vec<char> = Vec::new();
    for c in it: s.chars()
        invariant
            out@ =~= it.seq().take(it.index() as int),
            it.seq() == s@,
    {
        out.push(c);
    }
    proof {
        assert(out@ =~= s@);
    }
    out
}

/// A fresh copy of a character buffer.
pub fn copy_chars(v: &Vec<char>) -> (r: Vec<char>)
    ensures
        r@ == v@,
{
    let mut out: Vec<char> = Vec::new();
    let mut i: usize = 0;
    while i < v.len()
        invariant
            i <= v@.len(),
            out@ =~= v@.take(i as int),
        decreases v@.len() - i,
    {
        out.push(v[i]);
        i = i + 1;
    }
    proof {
        assert(out@ =~= v@);
    }
    out
}

} // verus!
