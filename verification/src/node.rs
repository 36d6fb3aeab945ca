//! What every node kind shares: the per-frame input context, the action
//! target surfaced to the embedding application, and the common
//! layout-then-arbitrate step a node performs on its own rectangle.

use vstd::prelude::*;
use crate::geom::{
    AbsRect, UiRect, UiAlign, point_in_rect_spec, resolved_abs, resolved_rel, delta_ok,
};
use crate::event::{UiAction, UiMouseAction, EventStep, update_event_spec};
use crate::keys::UiKey;

verus! {

/// Everything the engine samples for one frame: pointer position and
/// delta, the discrete button samples, the keys newly pressed, the shift
/// and backspace key states, and the elapsed time.
#[derive(Debug)]
pub struct FrameCtx {
    pub mouse_pos: (i64, i64),
    pub mouse_delta: (i64, i64),
    pub l_mouse: UiMouseAction,
    pub r_mouse: UiMouseAction,
    /// Keys that went down this frame, in the order the host reports them.
    pub keys_pressed: Vec<UiKey>,
    pub shift_down: bool,
    pub backspace_pressed: bool,
    pub backspace_down: bool,
    /// Elapsed time since the previous frame, in milliseconds.
    pub time_delta_ms: u32,
}

impl FrameCtx {
    /// The pointer deltas a frame context may carry: differences of two
    /// clamped positions.
    pub open spec fn wf(self) -> bool {
        delta_ok(self.mouse_delta.0) && delta_ok(self.mouse_delta.1)
    }
}

/// Which kind of node an action target is.
#[derive(Debug, PartialEq, Eq, Structural, Clone, Copy)]
pub enum UiKind {
    Container,
    Text,
    Button,
    Input,
    Radio,
}

/// The single arbitrated action target of a frame: which node claimed the
/// action token, what its action is, and what its kind implies for the
/// cursor.
#[derive(Debug, PartialEq, Eq, Structural, Clone, Copy)]
pub struct ActionTarget {
    pub id: u32,
    pub event: UiAction,
    pub kind: UiKind,
    pub show_hover: bool,
}

/// Caller-attached payload a node can carry.
#[derive(Debug, Clone)]
pub enum UiMetaData {
    Integer(i32),
    Text(String),
    VecInt(Vec<i32>),
    VecText(Vec<String>),
}

/// The per-node state every kind shares, gathered for specification: the
/// identity, the rectangles, the behavior flags, and the previous frame's
/// action.
#[derive(Debug, PartialEq, Eq, Structural, Clone, Copy)]
pub struct NodeCore {
    pub id: u32,
    pub kind: UiKind,
    pub event: UiAction,
    pub holding: bool,
    pub abs: AbsRect,
    pub rel: UiRect,
    pub align: UiAlign,
    pub draggable: bool,
    pub show_hover: bool,
}

/// The outcome of one node's own frame step: its resolved rectangles,
/// whether the pointer ended up inside them, and the event-arbitration
/// outcome.
#[derive(Debug, PartialEq, Eq, Structural, Clone, Copy)]
pub struct NodeStep {
    pub abs: AbsRect,
    pub rel: UiRect,
    pub inbounds: bool,
    pub ev: EventStep,
}

/// One node's own frame step: resolve the rectangle from the parent and
/// the deltas, hit-test the pointer against the resolved rectangle, then
/// derive the node's action by the arbitration rule.
pub open spec fn node_step(
    c: NodeCore,
    avail: bool,
    parent: AbsRect,
    parent_delta: (i64, i64),
    ctx: FrameCtx,
) -> NodeStep {
    let dragging = c.draggable && c.holding;
    let abs = resolved_abs(c.abs, c.rel, parent, parent_delta, c.align, ctx.mouse_delta, dragging);
    let rel = resolved_rel(c.rel, parent, parent_delta, c.align, ctx.mouse_delta, dragging);
    let inbounds = point_in_rect_spec(ctx.mouse_pos.0 as int, ctx.mouse_pos.1 as int, abs);
    let ev = update_event_spec(avail, inbounds, c.holding, c.event, ctx.l_mouse, ctx.r_mouse);
    NodeStep { abs, rel, inbounds, ev }
}

/// Whether this node claims the frame's action token: the token was still
/// free when the node ran, and the pointer was inside its resolved
/// rectangle.
pub open spec fn node_claims(
    c: NodeCore,
    t0: Option<ActionTarget>,
    parent: AbsRect,
    parent_delta: (i64, i64),
    ctx: FrameCtx,
) -> bool {
    t0 is None && node_step(c, true, parent, parent_delta, ctx).inbounds
}

/// The action-target slot after this node's own step: unchanged unless the
/// node claims the token, in which case the node records itself.
pub open spec fn node_target_after(
    c: NodeCore,
    t0: Option<ActionTarget>,
    parent: AbsRect,
    parent_delta: (i64, i64),
    ctx: FrameCtx,
) -> Option<ActionTarget> {
    if node_claims(c, t0, parent, parent_delta, ctx) {
        Some(
            ActionTarget {
                id: c.id,
                event: node_step(c, true, parent, parent_delta, ctx).ev.event,
                kind: c.kind,
                show_hover: c.show_hover,
            },
        )
    } else {
        t0
    }
}

} // verus!
