//! A radio button: a leaf node with a persistent `checked` flag that
//! toggles exactly on `LRelease`.

use vstd::prelude::*;
use crate::geom::{AbsRect, UiRect, UiAlign, delta_ok};
use crate::event::UiAction;
use crate::color::Color;
use crate::node::{FrameCtx, ActionTarget, UiKind, UiMetaData, NodeCore, node_step,
    node_target_after};
use crate::theme::UiTheme;

verus! {

/// Construction parameters for a radio button.
#[derive(Debug, Clone)]
pub struct UiRadioParams<'a> {
    pub pos_size: UiRect,
    pub alignment: UiAlign,
    pub label: String,
    pub theme: Option<&'a UiTheme>,
}

impl Default for UiRadioParams<'_> {
    fn default() -> (r: Self)
        ensures
            r.pos_size == (UiRect {
                x: crate::geom::UiSize::Px(0),
                y: crate::geom::UiSize::Px(0),
                w: crate::geom::UiSize::Px(100),
                h: crate::geom::UiSize::Px(30),
            }),
            r.alignment == UiAlign::TopLeft,
            r.label@ == Seq::<char>::empty(),
            r.theme is None,
    {
        UiRadioParams {
            pos_size: UiRect::from_px(0, 0, 100, 30),
            alignment: UiAlign::TopLeft,
            label: String::new(),
            theme: Option::None,
        }
    }
}

/// Whether this frame's action toggles the radio's `checked` flag.
pub open spec fn radio_checked_after(checked: bool, event: UiAction) -> bool {
    if event == UiAction::LRelease {
        !checked
    } else {
        checked
    }
}

/// A radio button node.
#[derive(Debug, Clone)]
pub struct UiRadio {
    pub id: u32,
    pub event: UiAction,
    pub holding: bool,
    pub abs_bounds: AbsRect,
    pub rel_bounds: UiRect,
    pub alignment: UiAlign,
    pub label: String,
    pub checked: bool,
    pub cir_color: Color,
    pub data: Option<UiMetaData>,
}

impl UiRadio {
    /// The shared per-node state this radio contributes to arbitration.
    pub open spec fn node_core(self) -> NodeCore {
        NodeCore {
            id: self.id,
            kind: UiKind::Radio,
            event: self.event,
            holding: self.holding,
            abs: self.abs_bounds,
            rel: self.rel_bounds,
            align: self.alignment,
            draggable: false,
            show_hover: true,
        }
    }

    pub open spec fn wf(self) -> bool {
        self.abs_bounds.wf() && self.rel_bounds.wf()
    }

    /// Build a radio button, unchecked; the circle color comes from the
    /// theme when one is given.
    pub fn new(id: u32, params: UiRadioParams) -> (r: UiRadio)
        requires
            params.pos_size.wf(),
        ensures
            r.id == id,
            r.event == UiAction::Idle,
            !r.holding,
            r.abs_bounds == (AbsRect { x: 0, y: 0, w: 0, h: 0 }),
            r.rel_bounds == params.pos_size,
            r.alignment == params.alignment,
            r.label == params.label,
            !r.checked,
            r.cir_color == (match params.theme {
                Some(tm) => tm.palette_3,
                Option::None => Color { r: 130, g: 130, b: 130, a: 255 },
            }),
            r.data is None,
            r.wf(),
    {
        let cir_color = match params.theme {
            Some(tm) => tm.palette_3,
            Option::None => Color::gray(),
        };
        UiRadio {
            id,
            event: UiAction::Idle,
            holding: false,
            abs_bounds: AbsRect::zero(),
            rel_bounds: params.pos_size,
            alignment: params.alignment,
            label: params.label,
            checked: false,
            cir_color,
            data: Option::None,
        }
    }

    /// Attach a payload.
    pub fn with_meta_data(self, meta_data: UiMetaData) -> (r: UiRadio)
        ensures
            r == (UiRadio { data: Some(meta_data), ..self }),
    {
        UiRadio { data: Some(meta_data), ..self }
    }

    /// The rectangle the radio resolved to last frame.
    pub fn bounds(&self) -> (r: AbsRect)
        ensures
            r == self.abs_bounds,
    {
        self.abs_bounds
    }

    /// Whether the radio has captured the pointer since a press inside its
    /// bounds.
    pub fn is_holding(&self) -> (r: bool)
        ensures
            r == self.holding,
    {
        self.holding
    }

    /// One frame step: resolve the rectangle, hit-test, derive the action,
    /// toggle `checked` on `LRelease`, and claim the action-target slot if
    /// this radio takes the token.
    pub(crate) fn update(
        &mut self,
        target: &mut Option<ActionTarget>,
        parent_rect: &AbsRect,
        parent_delta: &(i64, i64),
        ctx: &FrameCtx,
    )
        requires
            old(self).wf(),
            parent_rect.wf(),
            delta_ok(parent_delta.0),
            delta_ok(parent_delta.1),
            ctx.wf(),
        ensures
            ({
                let st = node_step(
                    old(self).node_core(),
                    (*old(target)) is None,
                    *parent_rect,
                    *parent_delta,
                    *ctx,
                );
                final(self).abs_bounds == st.abs && final(self).rel_bounds == st.rel
                    && final(self).event == st.ev.event && final(self).holding == st.ev.holding
                    && final(self).checked == radio_checked_after(old(self).checked, st.ev.event)
            }),
            *final(target) == node_target_after(
                old(self).node_core(),
                *old(target),
                *parent_rect,
                *parent_delta,
                *ctx,
            ),
            final(self).id == old(self).id,
            final(self).alignment == old(self).alignment,
            final(self).label == old(self).label,
            final(self).cir_color == old(self).cir_color,
            final(self).data == old(self).data,
            final(self).wf(),
    {
        let pos_update = crate::geom::resolve_rect(
            &self.abs_bounds,
            &self.rel_bounds,
            parent_rect,
            parent_delta,
            &self.alignment,
            &ctx.mouse_delta,
            false,
        );
        self.abs_bounds = pos_update.0;
        self.rel_bounds = pos_update.1;
        let inbounds = crate::geom::point_in_rect(&ctx.mouse_pos, &self.abs_bounds);
        let mut action_available = target.is_none();
        self.event = crate::event::update_event(
            &mut action_available,
            inbounds,
            &mut self.holding,
            &self.event,
            &ctx.l_mouse,
            &ctx.r_mouse,
        );
        if self.event == UiAction::LRelease {
            self.checked = !self.checked;
        }
        if !action_available && target.is_none() {
            *target = Some(
                ActionTarget { id: self.id, event: self.event, kind: UiKind::Radio, show_hover: true },
            );
        }
    }
}

} // verus!
