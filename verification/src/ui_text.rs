//! A text label: a leaf node that draws a single line of text and can
//! optionally be dragged.

use vstd::prelude::*;
use crate::geom::{AbsRect, UiRect, UiAlign, delta_ok};
use crate::event::UiAction;
use crate::node::{FrameCtx, ActionTarget, UiKind, UiMetaData, NodeCore, node_step,
    node_target_after};
use crate::theme::UiTheme;

verus! {

/// Construction parameters for a text label.
#[derive(Debug, Clone)]
pub struct UiTextParams<'a> {
    pub pos_size: UiRect,
    pub alignment: UiAlign,
    pub text: String,
    pub font_size: u16,
    pub draggable: bool,
    pub theme: Option<&'a UiTheme>,
}

impl Default for UiTextParams<'_> {
    fn default() -> (r: Self)
        ensures
            r.pos_size == (UiRect {
                x: crate::geom::UiSize::Px(0),
                y: crate::geom::UiSize::Px(0),
                w: crate::geom::UiSize::Px(10),
                h: crate::geom::UiSize::Px(10),
            }),
            r.alignment == UiAlign::TopLeft,
            r.text@ == "[Display Text]"@,
            r.font_size == 18,
            !r.draggable,
            r.theme is None,
    {
        UiTextParams {
            pos_size: UiRect::from_px(0, 0, 10, 10),
            alignment: UiAlign::TopLeft,
            text: "[Display Text]".to_owned(),
            font_size: 18,
            draggable: false,
            theme: Option::None,
        }
    }
}

/// A text label node.
#[derive(Debug, Clone)]
pub struct UiText {
    pub id: u32,
    pub event: UiAction,
    pub holding: bool,
    pub abs_bounds: AbsRect,
    pub rel_bounds: UiRect,
    pub alignment: UiAlign,
    pub draggable: bool,
    pub text: String,
    pub font_size: u16,
    pub data: Option<UiMetaData>,
}

impl UiText {
    /// The shared per-node state this label contributes to arbitration.
    pub open spec fn node_core(self) -> NodeCore {
        NodeCore {
            id: self.id,
            kind: UiKind::Text,
            event: self.event,
            holding: self.holding,
            abs: self.abs_bounds,
            rel: self.rel_bounds,
            align: self.alignment,
            draggable: self.draggable,
            show_hover: false,
        }
    }

    pub open spec fn wf(self) -> bool {
        self.abs_bounds.wf() && self.rel_bounds.wf()
    }

    /// Build a label; the font size comes from the theme when one is
    /// given.
    pub fn new(id: u32, params: UiTextParams) -> (r: UiText)
        requires
            params.pos_size.wf(),
        ensures
            r.id == id,
            r.event == UiAction::Idle,
            !r.holding,
            r.abs_bounds == (AbsRect { x: 0, y: 0, w: 0, h: 0 }),
            r.rel_bounds == params.pos_size,
            r.alignment == params.alignment,
            r.draggable == params.draggable,
            r.text == params.text,
            r.font_size == (match params.theme {
                Some(tm) => tm.font_size,
                Option::None => params.font_size,
            }),
            r.data is None,
            r.wf(),
    {
        let font_size = match params.theme {
            Some(tm) => tm.font_size,
            Option::None => params.font_size,
        };
        UiText {
            id,
            event: UiAction::Idle,
            holding: false,
            abs_bounds: AbsRect::zero(),
            rel_bounds: params.pos_size,
            alignment: params.alignment,
            draggable: params.draggable,
            text: params.text,
            font_size,
            data: Option::None,
        }
    }

    /// Attach a payload.
    pub fn with_meta_data(self, meta_data: UiMetaData) -> (r: UiText)
        ensures
            r == (UiText { data: Some(meta_data), ..self }),
    {
        UiText { data: Some(meta_data), ..self }
    }

    /// The rectangle the label resolved to last frame.
    pub fn bounds(&self) -> (r: AbsRect)
        ensures
            r == self.abs_bounds,
    {
        self.abs_bounds
    }

    /// Whether the label has captured the pointer since a press inside its
    /// bounds.
    pub fn is_holding(&self) -> (r: bool)
        ensures
            r == self.holding,
    {
        self.holding
    }

    /// One frame step: resolve the rectangle, hit-test, derive the action,
    /// and claim the action-target slot if this label takes the token.
    pub(crate) fn update(
        &mut self,
        target: &mut Option<ActionTarget>,
        parent_rect: &AbsRect,
        parent_delta: &(i64, i64),
        ctx: &FrameCtx,
    )
        requires
            old(self).wf(),
            parent_rect.wf(),
            delta_ok(parent_delta.0),
            delta_ok(parent_delta.1),
            ctx.wf(),
    ensures
        ({
            let st = node_step(
                old(self).node_core(),
                (*old(target)) is None,
                *parent_rect,
                *parent_delta,
                *ctx,
            );
            final(self).abs_bounds == st.abs && final(self).rel_bounds == st.rel
                && final(self).event == st.ev.event && final(self).holding == st.ev.holding
        }),
        *final(target) == node_target_after(
            old(self).node_core(),
            *old(target),
            *parent_rect,
            *parent_delta,
            *ctx,
        ),
        final(self).id == old(self).id,
        final(self).alignment == old(self).alignment,
        final(self).draggable == old(self).draggable,
        final(self).text == old(self).text,
        final(self).font_size == old(self).font_size,
        final(self).data == old(self).data,
        final(self).wf(),
    {
        let pos_update = crate::geom::resolve_rect(
            &self.abs_bounds,
            &self.rel_bounds,
            parent_rect,
            parent_delta,
            &self.alignment,
            &ctx.mouse_delta,
            self.draggable && self.holding,
        );
        self.abs_bounds = pos_update.0;
        self.rel_bounds = pos_update.1;
        let inbounds = crate::geom::point_in_rect(&ctx.mouse_pos, &self.abs_bounds);
        let mut action_available = target.is_none();
        self.event = crate::event::update_event(
            &mut action_available,
            inbounds,
            &mut self.holding,
            &self.event,
            &ctx.l_mouse,
            &ctx.r_mouse,
        );
        if !action_available && target.is_none() {
            *target = Some(
                ActionTarget { id: self.id, event: self.event, kind: UiKind::Text, show_hover: false },
            );
        }
    }
}

} // verus!
