//! A single-line text input: focused by a click-and-release inside it
//! and blurred by a click outside it, a
//! character buffer edited from the frame's key samples, press-then-repeat
//! backspace, and a caret blink timer.

use vstd::prelude::*;
use crate::geom::{AbsRect, UiRect, UiAlign, delta_ok};
use crate::event::UiAction;
use crate::keys::{UiKey, key_char_spec, key_char};
use crate::node::{FrameCtx, ActionTarget, UiKind, UiMetaData, NodeCore, node_step,
    node_target_after};
use crate::theme::UiTheme;

verus! {

/// Delay before the first backspace repeat, in milliseconds.
pub const BKSP_FIRST_DELAY_MS: u32 = 500;

/// Delay between backspace repeats, in milliseconds.
pub const BKSP_REPEAT_DELAY_MS: u32 = 60;

/// Caret blink half-period, in milliseconds.
pub const BLINK_PERIOD_MS: u32 = 500;

/// Construction parameters for a text input.
#[derive(Debug, Clone)]
pub struct UiInputParams<'a> {
    pub pos_size: UiRect,
    pub alignment: UiAlign,
    pub placeholder: String,
    pub theme: Option<&'a UiTheme>,
}

impl Default for UiInputParams<'_> {
    fn default() -> (r: Self)
        ensures
            r.pos_size == (UiRect {
                x: crate::geom::UiSize::Px(0),
                y: crate::geom::UiSize::Px(0),
                w: crate::geom::UiSize::Px(200),
                h: crate::geom::UiSize::Px(30),
            }),
            r.alignment == UiAlign::TopLeft,
            r.placeholder@ == "Input"@,
            r.theme is None,
    {
        UiInputParams {
            pos_size: UiRect::from_px(0, 0, 200, 30),
            alignment: UiAlign::TopLeft,
            placeholder: "Input".to_owned(),
            theme: Option::None,
        }
    }
}

/// Focus after this frame's action: a click-and-release on the field
/// focuses it, a click outside the field clears it, and nothing else
/// changes it.
pub open spec fn input_active_after(active: bool, event: UiAction) -> bool {
    if event == UiAction::LRelease {
        true
    } else if event == UiAction::LClickOuter {
        false
    } else {
        active
    }
}

/// The buffer and the repeat countdown after the backspace key's part of
/// the frame: a fresh press deletes one character and arms the long first
/// delay; a held key counts the delay down by the frame time and deletes
/// one character each time it reaches zero, re-arming the short repeat
/// delay.
pub open spec fn backspace_step(buf: Seq<char>, cooldown: u32, ctx: FrameCtx) -> (Seq<char>, u32) {
    if ctx.backspace_pressed && buf.len() > 0 {
        (buf.drop_last(), BKSP_FIRST_DELAY_MS)
    } else if ctx.backspace_down && buf.len() > 0 {
        let cd = if cooldown > ctx.time_delta_ms {
            (cooldown - ctx.time_delta_ms) as u32
        } else {
            0u32
        };
        if cd == 0 {
            (buf.drop_last(), BKSP_REPEAT_DELAY_MS)
        } else {
            (buf, cd)
        }
    } else {
        (buf, cooldown)
    }
}

/// The buffer after appending the characters of this frame's newly
/// pressed keys, in sample order, under the given shift state; keys
/// outside the printable table contribute nothing.
pub open spec fn append_chars(buf: Seq<char>, pressed: Seq<UiKey>, shift: bool) -> Seq<char>
    decreases pressed.len(),
{
    if pressed.len() == 0 {
        buf
    } else {
        let b2 = match key_char_spec(pressed.first(), shift) {
            Some(c) => buf.push(c),
            Option::None => buf,
        };
        append_chars(b2, pressed.skip(1), shift)
    }
}

/// The caret blink timer after one frame: accumulate the frame time and
/// toggle visibility each time a half-period is reached.
pub open spec fn blink_step(counter: u32, show: bool, dt: u32) -> (u32, bool) {
    if counter + dt >= BLINK_PERIOD_MS {
        (0u32, !show)
    } else {
        ((counter + dt) as u32, show)
    }
}

/// The editing state of a text input after one frame.
pub struct InputEdit {
    pub text: Seq<char>,
    pub bksp_cooldown: u32,
    pub blink_counter: u32,
    pub show_blink: bool,
}

/// One frame of editing: while the field is focused, run the backspace
/// step, append the pressed characters, and advance the blink timer;
/// while unfocused, keep the buffer and hold the caret hidden with the
/// timer at zero.
pub open spec fn input_edit_step(
    text: Seq<char>,
    bksp_cooldown: u32,
    blink_counter: u32,
    show_blink: bool,
    active: bool,
    ctx: FrameCtx,
) -> InputEdit {
    if active {
        let bk = backspace_step(text, bksp_cooldown, ctx);
        let text2 = append_chars(bk.0, ctx.keys_pressed@, ctx.shift_down);
        let bl = blink_step(blink_counter, show_blink, ctx.time_delta_ms);
        InputEdit { text: text2, bksp_cooldown: bk.1, blink_counter: bl.0, show_blink: bl.1 }
    } else {
        InputEdit { text, bksp_cooldown, blink_counter: 0, show_blink: false }
    }
}

/// A text input node.
#[derive(Debug, Clone)]
pub struct UiInput {
    pub id: u32,
    pub event: UiAction,
    pub holding: bool,
    pub abs_bounds: AbsRect,
    pub rel_bounds: UiRect,
    pub alignment: UiAlign,
    pub is_active: bool,
    pub input: Vec<char>,
    pub placeholder: String,
    pub blink_counter: u32,
    pub show_blink: bool,
    pub bksp_cooldown: u32,
    pub data: Option<UiMetaData>,
}

impl UiInput {
    /// The shared per-node state this input contributes to arbitration.
    pub open spec fn node_core(self) -> NodeCore {
        NodeCore {
            id: self.id,
            kind: UiKind::Input,
            event: self.event,
            holding: self.holding,
            abs: self.abs_bounds,
            rel: self.rel_bounds,
            align: self.alignment,
            draggable: false,
            show_hover: true,
        }
    }

    pub open spec fn wf(self) -> bool {
        self.abs_bounds.wf() && self.rel_bounds.wf()
    }

    /// Build an unfocused input with an empty buffer.
    pub fn new(id: u32, params: UiInputParams) -> (r: UiInput)
        requires
            params.pos_size.wf(),
        ensures
            r.id == id,
            r.event == UiAction::Idle,
            !r.holding,
            r.abs_bounds == (AbsRect { x: 0, y: 0, w: 0, h: 0 }),
            r.rel_bounds == params.pos_size,
            r.alignment == params.alignment,
            !r.is_active,
            r.input@ == Seq::<char>::empty(),
            r.placeholder == params.placeholder,
            r.blink_counter == 0,
            !r.show_blink,
            r.bksp_cooldown == 0,
            r.data is None,
            r.wf(),
    {
        UiInput {
            id,
            event: UiAction::Idle,
            holding: false,
            abs_bounds: AbsRect::zero(),
            rel_bounds: params.pos_size,
            alignment: params.alignment,
            is_active: false,
            input: Vec::new(),
            placeholder: params.placeholder,
            blink_counter: 0,
            show_blink: false,
            bksp_cooldown: 0,
            data: Option::None,
        }
    }

    /// Attach a payload.
    pub fn with_meta_data(self, meta_data: UiMetaData) -> (r: UiInput)
        ensures
            r == (UiInput { data: Some(meta_data), ..self }),
    {
        UiInput { data: Some(meta_data), ..self }
    }

    /// The rectangle the input resolved to last frame.
    pub fn bounds(&self) -> (r: AbsRect)
        ensures
            r == self.abs_bounds,
    {
        self.abs_bounds
    }

    /// Whether the input has captured the pointer since a press inside
    /// its bounds.
    pub fn is_holding(&self) -> (r: bool)
        ensures
            r == self.holding,
    {
        self.holding
    }

    /// Empty the buffer.
    pub fn clear(&mut self)
        ensures
            final(self).input@ == Seq::<char>::empty(),
            *final(self) == (UiInput { input: final(self).input, ..*old(self) }),
    {
        self.input.clear();
    }

    /// One frame step: resolve the rectangle, hit-test, derive the
    /// action, settle focus, edit the buffer and timers, and claim the
    /// action-target slot if this input takes the token.
    #[verifier::rlimit(60)]
    pub(crate) fn update(
        &mut self,
        target: &mut Option<ActionTarget>,
        parent_rect: &AbsRect,
        parent_delta: &(i64, i64),
        ctx: &FrameCtx,
    )
        requires
            old(self).wf(),
            parent_rect.wf(),
            delta_ok(parent_delta.0),
            delta_ok(parent_delta.1),
            ctx.wf(),
        ensures
            ({
                let st = node_step(
                    old(self).node_core(),
                    (*old(target)) is None,
                    *parent_rect,
                    *parent_delta,
                    *ctx,
                );
                let active = input_active_after(old(self).is_active, st.ev.event);
                let ed = input_edit_step(
                    old(self).input@,
                    old(self).bksp_cooldown,
                    old(self).blink_counter,
                    old(self).show_blink,
                    active,
                    *ctx,
                );
                final(self).abs_bounds == st.abs && final(self).rel_bounds == st.rel
                    && final(self).event == st.ev.event && final(self).holding == st.ev.holding
                    && final(self).is_active == active && final(self).input@ == ed.text
                    && final(self).bksp_cooldown == ed.bksp_cooldown
                    && final(self).blink_counter == ed.blink_counter
                    && final(self).show_blink == ed.show_blink
            }),
            *final(target) == node_target_after(
                old(self).node_core(),
                *old(target),
                *parent_rect,
                *parent_delta,
                *ctx,
            ),
            final(self).id == old(self).id,
            final(self).alignment == old(self).alignment,
            final(self).placeholder == old(self).placeholder,
            final(self).data == old(self).data,
            final(self).wf(),
    {
        let pos_update = crate::geom::resolve_rect(
            &self.abs_bounds,
            &self.rel_bounds,
            parent_rect,
            parent_delta,
            &self.alignment,
            &ctx.mouse_delta,
            false,
        );
        self.abs_bounds = pos_update.0;
        self.rel_bounds = pos_update.1;
        let inbounds = crate::geom::point_in_rect(&ctx.mouse_pos, &self.abs_bounds);
        let mut action_available = target.is_none();
        self.event = crate::event::update_event(
            &mut action_available,
            inbounds,
            &mut self.holding,
            &self.event,
            &ctx.l_mouse,
            &ctx.r_mouse,
        );
        match self.event {
            UiAction::LRelease => {
                self.is_active = true;
            },
            UiAction::LClickOuter => {
                self.is_active = false;
            },
            _ => (),
        }
        if self.is_active {
            if ctx.backspace_pressed && self.input.len() > 0 {
                self.input.pop();
                self.bksp_cooldown = BKSP_FIRST_DELAY_MS;
            } else if ctx.backspace_down && self.input.len() > 0 {
                if self.bksp_cooldown > ctx.time_delta_ms {
                    self.bksp_cooldown = self.bksp_cooldown - ctx.time_delta_ms;
                } else {
                    self.bksp_cooldown = 0;
                }
                if self.bksp_cooldown == 0 {
                    self.input.pop();
                    self.bksp_cooldown = BKSP_REPEAT_DELAY_MS;
                }
            }
            let ghost buf_after_bksp = self.input@;
            let ghost snap = *self;
            proof {
                assert(ctx.keys_pressed@.skip(0) =~= ctx.keys_pressed@);
            }
            let mut i: usize = 0;
            while i < ctx.keys_pressed.len()
                invariant
                    i <= ctx.keys_pressed.len(),
                    append_chars(self.input@, ctx.keys_pressed@.skip(i as int), ctx.shift_down)
                        == append_chars(buf_after_bksp, ctx.keys_pressed@, ctx.shift_down),
                    *self == (UiInput { input: self.input, ..snap }),
                decreases ctx.keys_pressed.len() - i,
            {
                let ghost pre = self.input@;
                let ghost rest = ctx.keys_pressed@.skip(i as int);
                match key_char(&ctx.keys_pressed[i], ctx.shift_down) {
                    Some(c) => {
                        self.input.push(c);
                    },
                    Option::None => (),
                }
                proof {
                    assert(rest.first() == ctx.keys_pressed@[i as int]);
                    assert(rest.skip(1) =~= ctx.keys_pressed@.skip(i as int + 1));
                    assert(append_chars(pre, rest, ctx.shift_down) == append_chars(
                        self.input@,
                        rest.skip(1),
                        ctx.shift_down,
                    ));
                }
                i = i + 1;
            }
            proof {
                assert(ctx.keys_pressed@.skip(ctx.keys_pressed@.len() as int)
                    =~= Seq::<UiKey>::empty());
            }
            let sum: u64 = self.blink_counter as u64 + ctx.time_delta_ms as u64;
            if sum >= BLINK_PERIOD_MS as u64 {
                self.show_blink = !self.show_blink;
                self.blink_counter = 0;
            } else {
                self.blink_counter = sum as u32;
            }
        } else {
            self.blink_counter = 0;
            self.show_blink = false;
        }
        if !action_available && target.is_none() {
            *target = Some(
                ActionTarget { id: self.id, event: self.event, kind: UiKind::Input, show_hover: true },
            );
        }
    }
}

} // verus!
