//! Rectangles, relative sizing and the per-frame layout rules.
//!
//! A node's rectangle exists twice: as a relative spec (`UiRect`, each axis
//! in pixels or in per-mille of the parent) and as the resolved absolute
//! rectangle of the current frame (`AbsRect`). `resolve_rect` recomputes the
//! absolute rectangle each frame from the relative spec, the parent's
//! rectangle and resize delta, the alignment anchor, and — while the node is
//! dragged — the pointer delta.

use vstd::prelude::*;
use crate::num::{
    COORD_LIMIT, MILLE_LIMIT, clamp_to, clamp_px_spec, clamp_mille_spec, tdiv, abs, px_ok,
    mille_ok, clamp_px, clamp_mille, add_px, add_mille, div_trunc,
};

verus! {

/// One axis of a relative rectangle: a fixed pixel length, or a per-mille
/// fraction of the parent's length (`Percent(500)` is half the parent).
#[derive(Debug, PartialEq, Eq, Structural, Clone, Copy)]
pub enum UiSize {
    Px(i64),
    Percent(i64),
}

impl UiSize {
    /// The raw stored value, whichever unit it is in.
    pub fn value(&self) -> (r: i64)
        ensures
            r == self.raw(),
    {
        match self {
            UiSize::Px(x) => *x,
            UiSize::Percent(x) => *x,
        }
    }

    pub open spec fn raw(self) -> i64 {
        match self {
            UiSize::Px(x) => x,
            UiSize::Percent(x) => x,
        }
    }

    pub fn is_px(&self) -> (r: bool)
        ensures
            r == self is Px,
    {
        match self {
            UiSize::Px(_) => true,
            _ => false,
        }
    }

    pub fn is_percent(&self) -> (r: bool)
        ensures
            r == self is Percent,
    {
        match self {
            UiSize::Percent(_) => true,
            _ => false,
        }
    }

    /// The same axis moved by a signed amount in its own unit: pixels
    /// for a pixel spec, per-mille for a per-mille spec, clamped into
    /// that unit's range.
    pub fn offset(self, delta: i64) -> (r: UiSize)
        ensures
            r == (match self {
                UiSize::Px(v) => UiSize::Px(clamp_px_spec(v + delta)),
                UiSize::Percent(p) => UiSize::Percent(clamp_mille_spec(p + delta)),
            }),
            r.wf(),
    {
        match self {
            UiSize::Px(v) => UiSize::Px(add_px(v, delta)),
            UiSize::Percent(p) => UiSize::Percent(add_mille(p, delta)),
        }
    }

    /// Whether the stored value lies in the range its unit allows.
    pub open spec fn wf(self) -> bool {
        match self {
            UiSize::Px(v) => px_ok(v),
            UiSize::Percent(p) => mille_ok(p),
        }
    }
}

/// The nine anchor points that decide how a child's position follows a
/// parent resize: the anchored edge keeps its distance, a centered axis
/// moves by half the resize.
#[derive(Debug, PartialEq, Eq, Structural, Clone, Copy)]
pub enum UiAlign {
    TopLeft,
    TopCenter,
    TopRight,
    CenterLeft,
    FullCenter,
    CenterRight,
    BottomLeft,
    BottomCenter,
    BottomRight,
}

/// A node's rectangle relative to its parent.
#[derive(Debug, PartialEq, Eq, Structural, Clone, Copy)]
pub struct UiRect {
    pub x: UiSize,
    pub y: UiSize,
    pub w: UiSize,
    pub h: UiSize,
}

impl UiRect {
    /// A relative rectangle given entirely in pixels, clamped into the
    /// coordinate range.
    pub fn from_px(x: i64, y: i64, w: i64, h: i64) -> (r: UiRect)
        ensures
            r == (UiRect {
                x: UiSize::Px(clamp_px_spec(x as int)),
                y: UiSize::Px(clamp_px_spec(y as int)),
                w: UiSize::Px(clamp_px_spec(w as int)),
                h: UiSize::Px(clamp_px_spec(h as int)),
            }),
            r.wf(),
    {
        UiRect {
            x: UiSize::Px(clamp_px(x)),
            y: UiSize::Px(clamp_px(y)),
            w: UiSize::Px(clamp_px(w)),
            h: UiSize::Px(clamp_px(h)),
        }
    }

    /// A relative rectangle given entirely in per-mille of the parent,
    /// clamped into the per-mille range.
    pub fn from_percent(x: i64, y: i64, w: i64, h: i64) -> (r: UiRect)
        ensures
            r == (UiRect {
                x: UiSize::Percent(clamp_mille_spec(x as int)),
                y: UiSize::Percent(clamp_mille_spec(y as int)),
                w: UiSize::Percent(clamp_mille_spec(w as int)),
                h: UiSize::Percent(clamp_mille_spec(h as int)),
            }),
            r.wf(),
    {
        UiRect {
            x: UiSize::Percent(clamp_mille(x)),
            y: UiSize::Percent(clamp_mille(y)),
            w: UiSize::Percent(clamp_mille(w)),
            h: UiSize::Percent(clamp_mille(h)),
        }
    }

    pub open spec fn wf(self) -> bool {
        self.x.wf() && self.y.wf() && self.w.wf() && self.h.wf()
    }
}

/// A resolved screen-space rectangle, in pixels.
#[derive(Debug, PartialEq, Eq, Structural, Clone, Copy)]
pub struct AbsRect {
    pub x: i64,
    pub y: i64,
    pub w: i64,
    pub h: i64,
}

impl AbsRect {
    pub open spec fn wf(self) -> bool {
        px_ok(self.x) && px_ok(self.y) && px_ok(self.w) && px_ok(self.h)
    }

    /// The all-zero rectangle every element starts from.
    pub fn zero() -> (r: AbsRect)
        ensures
            r == (AbsRect { x: 0, y: 0, w: 0, h: 0 }),
    {
        AbsRect { x: 0, y: 0, w: 0, h: 0 }
    }
}

/// Strict interior test: points on the border do not count as inside, and a
/// rectangle with zero or negative extent contains nothing.
pub open spec fn point_in_rect_spec(px: int, py: int, r: AbsRect) -> bool {
    r.x < px < r.x + r.w && r.y < py < r.y + r.h
}

/// Whether the point lies strictly inside the rectangle.
pub fn point_in_rect(point: &(i64, i64), rect: &AbsRect) -> (r: bool)
    ensures
        r == point_in_rect_spec(point.0 as int, point.1 as int, *rect),
{
    let px = point.0 as i128;
    let py = point.1 as i128;
    let x_in = px > rect.x as i128 && px < rect.x as i128 + rect.w as i128;
    let y_in = py > rect.y as i128 && py < rect.y as i128 + rect.h as i128;
    x_in && y_in
}

/// How far the x position shifts when the parent's width changes by
/// `delta`: not at all when left-anchored, half when centered, fully when
/// right-anchored.
pub open spec fn align_shift_x(align: UiAlign, delta: int) -> int {
    match align {
        UiAlign::TopCenter | UiAlign::FullCenter | UiAlign::BottomCenter => tdiv(delta, 2),
        UiAlign::TopRight | UiAlign::CenterRight | UiAlign::BottomRight => delta,
        _ => 0,
    }
}

/// How far the y position shifts when the parent's height changes by
/// `delta`.
pub open spec fn align_shift_y(align: UiAlign, delta: int) -> int {
    match align {
        UiAlign::CenterLeft | UiAlign::FullCenter | UiAlign::CenterRight => tdiv(delta, 2),
        UiAlign::BottomLeft | UiAlign::BottomCenter | UiAlign::BottomRight => delta,
        _ => 0,
    }
}

/// A resolved length: a pixel spec is taken as is, a per-mille spec is
/// scaled by the parent's length (truncating), both clamped.
pub open spec fn resolve_len(rel: UiSize, parent_len: int) -> i64 {
    match rel {
        UiSize::Px(v) => clamp_px_spec(v as int),
        UiSize::Percent(p) => clamp_px_spec(tdiv(p as int * parent_len, 1000)),
    }
}

/// A resolved position on one axis while the node is not being dragged:
/// the parent origin plus the relative offset plus the alignment shift.
pub open spec fn resolve_pos(rel: UiSize, parent_pos: int, parent_len: int, shift: int) -> i64 {
    match rel {
        UiSize::Px(v) => clamp_px_spec(parent_pos + v + shift),
        UiSize::Percent(p) => clamp_px_spec(parent_pos + tdiv(p as int * parent_len, 1000) + shift),
    }
}

/// The relative offset after a parent resize: a pixel offset absorbs the
/// alignment shift, a per-mille offset is left alone (it rescales by
/// itself).
pub open spec fn shifted_rel(rel: UiSize, shift: int) -> UiSize {
    match rel {
        UiSize::Px(v) => UiSize::Px(clamp_px_spec(v + shift)),
        UiSize::Percent(p) => UiSize::Percent(p),
    }
}

/// The relative offset after one frame of dragging: a pixel offset absorbs
/// the pointer delta directly, a per-mille offset absorbs the delta as a
/// fraction of the parent's length (no change over a zero-length parent).
pub open spec fn dragged_rel(rel: UiSize, delta: int, parent_len: int) -> UiSize {
    match rel {
        UiSize::Px(v) => UiSize::Px(clamp_px_spec(v + delta)),
        UiSize::Percent(p) => UiSize::Percent(
            if parent_len == 0 {
                p
            } else {
                clamp_mille_spec(p + tdiv(delta * 1000, parent_len))
            },
        ),
    }
}

/// The absolute rectangle after one layout step.
pub open spec fn resolved_abs(
    prev_abs: AbsRect,
    rel: UiRect,
    parent: AbsRect,
    parent_delta: (i64, i64),
    align: UiAlign,
    mouse_delta: (i64, i64),
    dragging: bool,
) -> AbsRect {
    let w = resolve_len(rel.w, parent.w as int);
    let h = resolve_len(rel.h, parent.h as int);
    if dragging {
        AbsRect {
            x: clamp_px_spec(prev_abs.x + mouse_delta.0),
            y: clamp_px_spec(prev_abs.y + mouse_delta.1),
            w,
            h,
        }
    } else {
        AbsRect {
            x: resolve_pos(
                rel.x,
                parent.x as int,
                parent.w as int,
                align_shift_x(align, parent_delta.0 as int),
            ),
            y: resolve_pos(
                rel.y,
                parent.y as int,
                parent.h as int,
                align_shift_y(align, parent_delta.1 as int),
            ),
            w,
            h,
        }
    }
}

/// The relative rectangle after one layout step.
pub open spec fn resolved_rel(
    rel: UiRect,
    parent: AbsRect,
    parent_delta: (i64, i64),
    align: UiAlign,
    mouse_delta: (i64, i64),
    dragging: bool,
) -> UiRect {
    if dragging {
        UiRect {
            x: dragged_rel(rel.x, mouse_delta.0 as int, parent.w as int),
            y: dragged_rel(rel.y, mouse_delta.1 as int, parent.h as int),
            w: rel.w,
            h: rel.h,
        }
    } else {
        UiRect {
            x: shifted_rel(rel.x, align_shift_x(align, parent_delta.0 as int)),
            y: shifted_rel(rel.y, align_shift_y(align, parent_delta.1 as int)),
            w: rel.w,
            h: rel.h,
        }
    }
}

/// Bound on the per-frame deltas handed to the layout step: a difference of
/// two clamped values.
pub open spec fn delta_ok(d: i64) -> bool {
    -2 * COORD_LIMIT <= d <= 2 * COORD_LIMIT
}

/// One layout step: recompute the absolute rectangle (and possibly the
/// relative spec) of a node from its parent's rectangle and this frame's
/// deltas. `dragging` is `draggable && holding`: then the position follows
/// the pointer instead of the parent.
pub fn resolve_rect(
    prev_abs: &AbsRect,
    rel: &UiRect,
    parent: &AbsRect,
    parent_delta: &(i64, i64),
    align: &UiAlign,
    mouse_delta: &(i64, i64),
    dragging: bool,
) -> (r: (AbsRect, UiRect))
    requires
        prev_abs.wf(),
        rel.wf(),
        parent.wf(),
        delta_ok(parent_delta.0),
        delta_ok(parent_delta.1),
        delta_ok(mouse_delta.0),
        delta_ok(mouse_delta.1),
    ensures
        r.0 == resolved_abs(*prev_abs, *rel, *parent, *parent_delta, *align, *mouse_delta, dragging),
        r.1 == resolved_rel(*rel, *parent, *parent_delta, *align, *mouse_delta, dragging),
        r.0.wf(),
        r.1.wf(),
{
    let w = resolve_len_exec(rel.w, parent.w);
    let h = resolve_len_exec(rel.h, parent.h);
    if dragging {
        let ax = add_px(prev_abs.x, mouse_delta.0);
        let ay = add_px(prev_abs.y, mouse_delta.1);
        let rx = dragged_rel_exec(rel.x, mouse_delta.0, parent.w);
        let ry = dragged_rel_exec(rel.y, mouse_delta.1, parent.h);
        (AbsRect { x: ax, y: ay, w, h }, UiRect { x: rx, y: ry, w: rel.w, h: rel.h })
    } else {
        let sx = shift_x_exec(align, parent_delta.0);
        let sy = shift_y_exec(align, parent_delta.1);
        let ax = resolve_pos_exec(rel.x, parent.x, parent.w, sx);
        let ay = resolve_pos_exec(rel.y, parent.y, parent.h, sy);
        let rx = shifted_rel_exec(rel.x, sx);
        let ry = shifted_rel_exec(rel.y, sy);
        (AbsRect { x: ax, y: ay, w, h }, UiRect { x: rx, y: ry, w: rel.w, h: rel.h })
    }
}

fn resolve_len_exec(rel: UiSize, parent_len: i64) -> (r: i64)
    requires
        rel.wf(),
        px_ok(parent_len),
    ensures
        r == resolve_len(rel, parent_len as int),
{
    match rel {
        UiSize::Px(v) => clamp_px(v),
        UiSize::Percent(p) => {
            proof {
                lemma_mille_mul_bound(p as int, parent_len as int);
            }
            let scaled = div_trunc(p * parent_len, 1000);
            clamp_px(scaled)
        },
    }
}

/// A per-mille factor times a clamped length stays far inside `i64`.
proof fn lemma_mille_mul_bound(p: int, len: int)
    requires
        -MILLE_LIMIT <= p <= MILLE_LIMIT,
        -COORD_LIMIT <= len <= COORD_LIMIT,
    ensures
        -(MILLE_LIMIT * COORD_LIMIT) <= p * len <= MILLE_LIMIT * COORD_LIMIT,
{
    assert(p * len <= MILLE_LIMIT * COORD_LIMIT && -(MILLE_LIMIT * COORD_LIMIT) <= p * len)
        by (nonlinear_arith)
        requires
            -MILLE_LIMIT <= p <= MILLE_LIMIT,
            -COORD_LIMIT <= len <= COORD_LIMIT,
    ;
}

fn shift_x_exec(align: &UiAlign, delta: i64) -> (r: i64)
    requires
        delta_ok(delta),
    ensures
        r == align_shift_x(*align, delta as int),
        -2 * COORD_LIMIT <= r <= 2 * COORD_LIMIT,
{
    match align {
        UiAlign::TopCenter | UiAlign::FullCenter | UiAlign::BottomCenter => div_trunc(delta, 2),
        UiAlign::TopRight | UiAlign::CenterRight | UiAlign::BottomRight => delta,
        _ => 0,
    }
}

fn shift_y_exec(align: &UiAlign, delta: i64) -> (r: i64)
    requires
        delta_ok(delta),
    ensures
        r == align_shift_y(*align, delta as int),
        -2 * COORD_LIMIT <= r <= 2 * COORD_LIMIT,
{
    match align {
        UiAlign::CenterLeft | UiAlign::FullCenter | UiAlign::CenterRight => div_trunc(delta, 2),
        UiAlign::BottomLeft | UiAlign::BottomCenter | UiAlign::BottomRight => delta,
        _ => 0,
    }
}

fn resolve_pos_exec(rel: UiSize, parent_pos: i64, parent_len: i64, shift: i64) -> (r: i64)
    requires
        rel.wf(),
        px_ok(parent_pos),
        px_ok(parent_len),
        -2 * COORD_LIMIT <= shift <= 2 * COORD_LIMIT,
    ensures
        r == resolve_pos(rel, parent_pos as int, parent_len as int, shift as int),
{
    match rel {
        UiSize::Px(v) => clamp_px(parent_pos + v + shift),
        UiSize::Percent(p) => {
            proof {
                lemma_mille_mul_bound(p as int, parent_len as int);
            }
            let scaled = div_trunc(p * parent_len, 1000);
            proof {
                assert(-(MILLE_LIMIT * COORD_LIMIT) <= scaled <= MILLE_LIMIT * COORD_LIMIT);
            }
            clamp_px(parent_pos + scaled + shift)
        },
    }
}

fn shifted_rel_exec(rel: UiSize, shift: i64) -> (r: UiSize)
    requires
        rel.wf(),
        -2 * COORD_LIMIT <= shift <= 2 * COORD_LIMIT,
    ensures
        r == shifted_rel(rel, shift as int),
        r.wf(),
{
    match rel {
        UiSize::Px(v) => UiSize::Px(clamp_px(v + shift)),
        UiSize::Percent(p) => UiSize::Percent(p),
    }
}

fn dragged_rel_exec(rel: UiSize, delta: i64, parent_len: i64) -> (r: UiSize)
    requires
        rel.wf(),
        px_ok(parent_len),
        delta_ok(delta),
    ensures
        r == dragged_rel(rel, delta as int, parent_len as int),
        r.wf(),
{
    match rel {
        UiSize::Px(v) => UiSize::Px(clamp_px(v + delta)),
        UiSize::Percent(p) => {
            if parent_len == 0 {
                UiSize::Percent(p)
            } else {
                proof {
                    assert(-2_000_000_000_000 <= delta * 1000 <= 2_000_000_000_000)
                        by (nonlinear_arith)
                        requires
                            -2 * COORD_LIMIT <= delta <= 2 * COORD_LIMIT,
                    ;
                }
                let frac = div_trunc(delta * 1000, parent_len);
                UiSize::Percent(add_mille(p, frac))
            }
        },
    }
}

/// A parent's size change this frame, used to propagate resizes to aligned
/// children; a parent that had no resolved size yet reports no change.
pub open spec fn size_delta_spec(old_abs: AbsRect, new_abs: AbsRect) -> (i64, i64) {
    if old_abs.w != 0 && old_abs.h != 0 {
        ((new_abs.w - old_abs.w) as i64, (new_abs.h - old_abs.h) as i64)
    } else {
        (0i64, 0i64)
    }
}

/// The parent-delta a box hands to its children after resolving its own
/// rectangle.
pub fn size_delta(old_abs: &AbsRect, new_abs: &AbsRect) -> (r: (i64, i64))
    requires
        old_abs.wf(),
        new_abs.wf(),
    ensures
        r == size_delta_spec(*old_abs, *new_abs),
        delta_ok(r.0),
        delta_ok(r.1),
{
    if old_abs.w != 0 && old_abs.h != 0 {
        (new_abs.w - old_abs.w, new_abs.h - old_abs.h)
    } else {
        (0, 0)
    }
}

} // verus!
