//! A push button: a pill-shaped leaf node with idle, hover and pressed
//! colors. Never draggable.

use vstd::prelude::*;
use crate::geom::{AbsRect, UiRect, UiAlign, delta_ok};
use crate::event::UiAction;
use crate::color::Color;
use crate::node::{FrameCtx, ActionTarget, UiKind, UiMetaData, NodeCore, node_step,
    node_target_after};
use crate::theme::UiTheme;

verus! {

/// Construction parameters for a button.
#[derive(Debug, Clone)]
pub struct UiButtonParams<'a> {
    pub pos_size: UiRect,
    pub alignment: UiAlign,
    pub text: String,
    pub theme: Option<&'a UiTheme>,
}

impl Default for UiButtonParams<'_> {
    fn default() -> (r: Self)
        ensures
            r.pos_size == (UiRect {
                x: crate::geom::UiSize::Px(0),
                y: crate::geom::UiSize::Px(0),
                w: crate::geom::UiSize::Px(100),
                h: crate::geom::UiSize::Px(30),
            }),
            r.alignment == UiAlign::TopLeft,
            r.text@ == "Button"@,
            r.theme is None,
    {
        UiButtonParams {
            pos_size: UiRect::from_px(0, 0, 100, 30),
            alignment: UiAlign::TopLeft,
            text: "Button".to_owned(),
            theme: Option::None,
        }
    }
}

/// A push button node.
#[derive(Debug, Clone)]
pub struct UiButton {
    pub id: u32,
    pub event: UiAction,
    pub holding: bool,
    pub abs_bounds: AbsRect,
    pub rel_bounds: UiRect,
    pub alignment: UiAlign,
    pub text: String,
    pub color: Color,
    pub hover_color: Color,
    pub hold_color: Color,
    pub data: Option<UiMetaData>,
}

impl UiButton {
    /// The shared per-node state this button contributes to arbitration.
    pub open spec fn node_core(self) -> NodeCore {
        NodeCore {
            id: self.id,
            kind: UiKind::Button,
            event: self.event,
            holding: self.holding,
            abs: self.abs_bounds,
            rel: self.rel_bounds,
            align: self.alignment,
            draggable: false,
            show_hover: true,
        }
    }

    pub open spec fn wf(self) -> bool {
        self.abs_bounds.wf() && self.rel_bounds.wf()
    }

    /// Build a button; its three colors come from the theme when one is
    /// given, else from the built-in grays and blue.
    pub fn new(id: u32, params: UiButtonParams) -> (r: UiButton)
        requires
            params.pos_size.wf(),
        ensures
            r.id == id,
            r.event == UiAction::Idle,
            !r.holding,
            r.abs_bounds == (AbsRect { x: 0, y: 0, w: 0, h: 0 }),
            r.rel_bounds == params.pos_size,
            r.alignment == params.alignment,
            r.text == params.text,
            r.color == (match params.theme {
                Some(tm) => tm.palette_2,
                Option::None => Color { r: 130, g: 130, b: 130, a: 255 },
            }),
            r.hover_color == (match params.theme {
                Some(tm) => tm.palette_3,
                Option::None => Color { r: 200, g: 200, b: 200, a: 255 },
            }),
            r.hold_color == (match params.theme {
                Some(tm) => tm.palette_4,
                Option::None => Color { r: 0, g: 121, b: 241, a: 255 },
            }),
            r.data is None,
            r.wf(),
    {
        let (color, hover_color, hold_color) = match params.theme {
            Some(tm) => (tm.palette_2, tm.palette_3, tm.palette_4),
            Option::None => (Color::gray(), Color::light_gray(), Color::blue()),
        };
        UiButton {
            id,
            event: UiAction::Idle,
            holding: false,
            abs_bounds: AbsRect::zero(),
            rel_bounds: params.pos_size,
            alignment: params.alignment,
            text: params.text,
            color,
            hover_color,
            hold_color,
            data: Option::None,
        }
    }

    /// Attach a payload.
    pub fn with_meta_data(self, meta_data: UiMetaData) -> (r: UiButton)
        ensures
            r == (UiButton { data: Some(meta_data), ..self }),
    {
        UiButton { data: Some(meta_data), ..self }
    }

    /// The rectangle the button resolved to last frame.
    pub fn bounds(&self) -> (r: AbsRect)
        ensures
            r == self.abs_bounds,
    {
        self.abs_bounds
    }

    /// Whether the button has captured the pointer since a press inside
    /// its bounds.
    pub fn is_holding(&self) -> (r: bool)
        ensures
            r == self.holding,
    {
        self.holding
    }

    /// One frame step: resolve the rectangle, hit-test, derive the action,
    /// and claim the action-target slot if this button takes the token.
    pub(crate) fn update(
        &mut self,
        target: &mut Option<ActionTarget>,
        parent_rect: &AbsRect,
        parent_delta: &(i64, i64),
        ctx: &FrameCtx,
    )
        requires
            old(self).wf(),
            parent_rect.wf(),
            delta_ok(parent_delta.0),
            delta_ok(parent_delta.1),
            ctx.wf(),
        ensures
            ({
                let st = node_step(
                    old(self).node_core(),
                    (*old(target)) is None,
                    *parent_rect,
                    *parent_delta,
                    *ctx,
                );
                final(self).abs_bounds == st.abs && final(self).rel_bounds == st.rel
                    && final(self).event == st.ev.event && final(self).holding == st.ev.holding
            }),
            *final(target) == node_target_after(
                old(self).node_core(),
                *old(target),
                *parent_rect,
                *parent_delta,
                *ctx,
            ),
            final(self).id == old(self).id,
            final(self).alignment == old(self).alignment,
            final(self).text == old(self).text,
            final(self).color == old(self).color,
            final(self).hover_color == old(self).hover_color,
            final(self).hold_color == old(self).hold_color,
            final(self).data == old(self).data,
            final(self).wf(),
    {
        let pos_update = crate::geom::resolve_rect(
            &self.abs_bounds,
            &self.rel_bounds,
            parent_rect,
            parent_delta,
            &self.alignment,
            &ctx.mouse_delta,
            false,
        );
        self.abs_bounds = pos_update.0;
        self.rel_bounds = pos_update.1;
        let inbounds = crate::geom::point_in_rect(&ctx.mouse_pos, &self.abs_bounds);
        let mut action_available = target.is_none();
        self.event = crate::event::update_event(
            &mut action_available,
            inbounds,
            &mut self.holding,
            &self.event,
            &ctx.l_mouse,
            &ctx.r_mouse,
        );
        if !action_available && target.is_none() {
            *target = Some(
                ActionTarget { id: self.id, event: self.event, kind: UiKind::Button, show_hover: true },
            );
        }
    }
}

} // verus!
