//! A container (box): the only node kind that owns children. It resolves
//! its own rectangle first, hands its children the resulting size delta,
//! updates them back-to-front, and only then runs its own hit test — so
//! the visually topmost node gets first refusal of the action token.

use vstd::prelude::*;
use crate::geom::{AbsRect, UiRect, UiAlign};
use crate::event::UiAction;
use crate::color::Color;
use crate::node::{UiMetaData, NodeCore, UiKind};
use crate::theme::UiTheme;
use crate::tree::UiElement;

verus! {

/// Construction parameters for a box.
#[derive(Debug)]
pub struct UiBoxParams<'a> {
    pub id: u32,
    pub pos_size: UiRect,
    pub alignment: UiAlign,
    pub draggable: bool,
    pub show_hover: bool,
    pub theme: Option<&'a UiTheme>,
}

impl Default for UiBoxParams<'_> {
    fn default() -> (r: Self)
        ensures
            r.id == 0,
            r.pos_size == (UiRect {
                x: crate::geom::UiSize::Px(0),
                y: crate::geom::UiSize::Px(0),
                w: crate::geom::UiSize::Px(200),
                h: crate::geom::UiSize::Px(150),
            }),
            r.alignment == UiAlign::TopLeft,
            !r.draggable,
            !r.show_hover,
            r.theme is None,
    {
        UiBoxParams {
            id: 0,
            pos_size: UiRect::from_px(0, 0, 200, 150),
            alignment: UiAlign::TopLeft,
            draggable: false,
            show_hover: false,
            theme: Option::None,
        }
    }
}

/// A container node with an ordered child sequence.
#[derive(Debug)]
pub struct UiBox {
    pub id: u32,
    pub event: UiAction,
    pub holding: bool,
    pub children: Vec<UiElement>,
    pub abs_bounds: AbsRect,
    pub rel_bounds: UiRect,
    pub alignment: UiAlign,
    pub draggable: bool,
    pub show_hover: bool,
    pub color: Color,
    pub hover_color: Color,
    pub data: Option<UiMetaData>,
}

impl UiBox {
    /// The shared per-node state this box contributes to arbitration.
    pub open spec fn node_core(self) -> NodeCore {
        NodeCore {
            id: self.id,
            kind: UiKind::Container,
            event: self.event,
            holding: self.holding,
            abs: self.abs_bounds,
            rel: self.rel_bounds,
            align: self.alignment,
            draggable: self.draggable,
            show_hover: self.show_hover,
        }
    }

    /// Build an empty box; its colors come from the theme when one is
    /// given.
    pub fn new(params: UiBoxParams) -> (r: UiBox)
        requires
            params.pos_size.wf(),
        ensures
            r.id == params.id,
            r.event == UiAction::Idle,
            !r.holding,
            r.children@ == Seq::<UiElement>::empty(),
            r.abs_bounds == (AbsRect { x: 0, y: 0, w: 0, h: 0 }),
            r.rel_bounds == params.pos_size,
            r.alignment == params.alignment,
            r.draggable == params.draggable,
            r.show_hover == params.show_hover,
            r.color == (match params.theme {
                Some(tm) => tm.palette_2,
                Option::None => Color { r: 130, g: 130, b: 130, a: 255 },
            }),
            r.hover_color == (match params.theme {
                Some(tm) => tm.palette_3,
                Option::None => Color { r: 200, g: 200, b: 200, a: 255 },
            }),
            r.data is None,
            r.abs_bounds.wf() && r.rel_bounds.wf(),
    {
        let (color, hover_color) = match params.theme {
            Some(tm) => (tm.palette_2, tm.palette_3),
            Option::None => (Color::gray(), Color::light_gray()),
        };
        UiBox {
            id: params.id,
            event: UiAction::Idle,
            holding: false,
            children: Vec::new(),
            abs_bounds: AbsRect::zero(),
            rel_bounds: params.pos_size,
            alignment: params.alignment,
            draggable: params.draggable,
            show_hover: params.show_hover,
            color,
            hover_color,
            data: Option::None,
        }
    }

    /// Attach a payload.
    pub fn with_meta_data(self, meta_data: UiMetaData) -> (r: UiBox)
        ensures
            r == (UiBox { data: Some(meta_data), ..self }),
    {
        UiBox { data: Some(meta_data), ..self }
    }

    /// The rectangle the box resolved to last frame.
    pub fn bounds(&self) -> (r: AbsRect)
        ensures
            r == self.abs_bounds,
    {
        self.abs_bounds
    }

    /// Whether the box has captured the pointer since a press inside its
    /// bounds.
    pub fn is_holding(&self) -> (r: bool)
        ensures
            r == self.holding,
    {
        self.holding
    }

    /// Append a child; later children render on top of earlier ones and
    /// get earlier claim on the action token.
    pub fn add_child(&mut self, elem: UiElement)
        ensures
            final(self).children@ == old(self).children@.push(elem),
            *final(self) == (UiBox { children: final(self).children, ..*old(self) }),
    {
        self.children.push(elem);
    }
}

} // verus!
