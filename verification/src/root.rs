//! The tree's root: per-frame orchestration. It remembers one frame of
//! state (the previous pointer position and the previous screen size),
//! derives this frame's deltas, runs the single update traversal, and
//! surfaces the one arbitrated action target together with a cursor hint.

use vstd::prelude::*;
use crate::geom::AbsRect;
use crate::num::{clamp_px_spec, clamp_px, px_ok};
use crate::event::{UiAction, UiMouseAction};
use crate::keys::UiKey;
use crate::node::{FrameCtx, ActionTarget, UiKind};
use crate::theme::{UiTheme, default_theme};
use crate::tree::{
    UiElement, children_wf, children_step_ok, children_target, update_children, find_node,
    find_in_children, children_wf_exec, elem_wf, lemma_children_wf_pointwise,
    lemma_children_wf_index,
};
use crate::laws::{
    count_active_children, count_holding_children, lemma_children_single_ownership,
    lemma_children_release_clears_holding, lemma_children_holding_gain,
};

verus! {

/// Everything the host samples for one frame, in plain values: pointer
/// position in screen pixels, discrete button samples, the keys newly
/// pressed, modifier and backspace state, the frame time, and the screen
/// size.
#[derive(Debug)]
pub struct FrameInput {
    pub mouse_x: i64,
    pub mouse_y: i64,
    pub l_mouse: UiMouseAction,
    pub r_mouse: UiMouseAction,
    pub keys_pressed: Vec<UiKey>,
    pub shift_down: bool,
    pub backspace_pressed: bool,
    pub backspace_down: bool,
    pub time_delta_ms: u32,
    pub screen_w: i64,
    pub screen_h: i64,
}

/// The cursor icon the frame's action target suggests.
#[derive(Debug, PartialEq, Eq, Structural, Clone, Copy)]
pub enum UiCursor {
    Standard,
    Pointer,
    Text,
}

/// The cursor hint for a frame: a text cursor over an engaged input, a
/// pointer over an engaged node that shows hover, the standard arrow
/// otherwise.
pub open spec fn cursor_hint_spec(target: Option<ActionTarget>) -> UiCursor {
    match target {
        Some(at) => match at.event {
            UiAction::Hover | UiAction::Hold | UiAction::LClick | UiAction::LRelease => {
                if at.kind == UiKind::Input {
                    UiCursor::Text
                } else if at.show_hover {
                    UiCursor::Pointer
                } else {
                    UiCursor::Standard
                }
            },
            _ => UiCursor::Standard,
        },
        Option::None => UiCursor::Standard,
    }
}

/// Derive the cursor icon from the frame's action target.
pub fn cursor_hint(target: &Option<ActionTarget>) -> (r: UiCursor)
    ensures
        r == cursor_hint_spec(*target),
{
    match target {
        Some(at) => match at.event {
            UiAction::Hover | UiAction::Hold | UiAction::LClick | UiAction::LRelease => {
                if at.kind == UiKind::Input {
                    UiCursor::Text
                } else if at.show_hover {
                    UiCursor::Pointer
                } else {
                    UiCursor::Standard
                }
            },
            _ => UiCursor::Standard,
        },
        Option::None => UiCursor::Standard,
    }
}

/// The root of an element tree.
#[derive(Debug)]
pub struct UiRoot {
    pub theme: UiTheme,
    pub children: Vec<UiElement>,
    pub prev_mouse_pos: (i64, i64),
    pub prev_screen: AbsRect,
    pub id_counter: u32,
}

/// The screen rectangle a frame's input describes.
pub open spec fn screen_rect(input: FrameInput) -> AbsRect {
    AbsRect {
        x: 0,
        y: 0,
        w: clamp_px_spec(input.screen_w as int),
        h: clamp_px_spec(input.screen_h as int),
    }
}

/// The per-frame context the root hands the traversal: the clamped
/// pointer position, the deltas against the previous frame, and the raw
/// samples passed through.
pub open spec fn root_ctx(r: UiRoot, input: FrameInput) -> FrameCtx {
    let mx = clamp_px_spec(input.mouse_x as int);
    let my = clamp_px_spec(input.mouse_y as int);
    FrameCtx {
        mouse_pos: (mx, my),
        mouse_delta: (
            (mx - r.prev_mouse_pos.0) as i64,
            (my - r.prev_mouse_pos.1) as i64,
        ),
        l_mouse: input.l_mouse,
        r_mouse: input.r_mouse,
        keys_pressed: input.keys_pressed,
        shift_down: input.shift_down,
        backspace_pressed: input.backspace_pressed,
        backspace_down: input.backspace_down,
        time_delta_ms: input.time_delta_ms,
    }
}

/// The screen resize delta a frame's input implies.
pub open spec fn screen_delta(r: UiRoot, input: FrameInput) -> (i64, i64) {
    (
        (clamp_px_spec(input.screen_w as int) - r.prev_screen.w) as i64,
        (clamp_px_spec(input.screen_h as int) - r.prev_screen.h) as i64,
    )
}

impl UiRoot {
    /// The state a root must keep: remembered positions clamped, and a
    /// well-formed tree.
    pub open spec fn wf(self) -> bool {
        px_ok(self.prev_mouse_pos.0) && px_ok(self.prev_mouse_pos.1) && self.prev_screen.wf()
            && children_wf(self.children@)
    }

    /// An empty root with the default theme, remembering the given
    /// screen size.
    pub fn new(screen_w: i64, screen_h: i64) -> (r: UiRoot)
        ensures
            r.theme == default_theme(),
            r.children@ == Seq::<UiElement>::empty(),
            r.prev_mouse_pos == (0i64, 0i64),
            r.prev_screen == (AbsRect {
                x: 0,
                y: 0,
                w: clamp_px_spec(screen_w as int),
                h: clamp_px_spec(screen_h as int),
            }),
            r.id_counter == 1,
            r.wf(),
    {
        UiRoot {
            theme: UiTheme::default(),
            children: Vec::new(),
            prev_mouse_pos: (0, 0),
            prev_screen: AbsRect { x: 0, y: 0, w: clamp_px(screen_w), h: clamp_px(screen_h) },
            id_counter: 1,
        }
    }

    /// The same root with another theme.
    pub fn with_theme(self, theme: UiTheme) -> (r: UiRoot)
        ensures
            r == (UiRoot { theme, ..self }),
    {
        UiRoot { theme, ..self }
    }

    /// Append a top-level element; later elements render on top of
    /// earlier ones and get earlier claim on the action token.
    pub fn add_child(&mut self, elem: UiElement)
        requires
            elem_wf(elem),
            old(self).wf(),
        ensures
            final(self).children@ == old(self).children@.push(elem),
            *final(self) == (UiRoot { children: final(self).children, ..*old(self) }),
            final(self).wf(),
    {
        let ghost pre = self.children@;
        self.children.push(elem);
        proof {
            assert forall|i: int| 0 <= i < self.children@.len() implies elem_wf(
                #[trigger] self.children@[i],
            ) by {
                if i < pre.len() {
                    lemma_children_wf_index(pre, i);
                    assert(self.children@[i] == pre[i]);
                } else {
                    assert(self.children@[i] == elem);
                }
            }
            lemma_children_wf_pointwise(self.children@);
        }
    }

    /// A fresh id, distinct from every id this counter handed out
    /// before.
    pub fn new_id(&mut self) -> (id: u32)
        requires
            old(self).id_counter < u32::MAX,
        ensures
            id == old(self).id_counter,
            final(self).id_counter == old(self).id_counter + 1,
            *final(self) == (UiRoot { id_counter: final(self).id_counter, ..*old(self) }),
    {
        let id = self.id_counter;
        self.id_counter = self.id_counter + 1;
        id
    }

    /// Look an element up by id, the way the update traversal shadows
    /// duplicates: a later sibling wins, and a descendant beats its
    /// container.
    pub fn find_element(&self, id: u32) -> (r: Option<&UiElement>)
        ensures
            match r {
                Some(er) => find_in_children(self.children@, id) == Some(*er),
                Option::None => find_in_children(self.children@, id) is None,
            },
    {
        find_node(&self.children, id)
    }

    /// Whether the whole tree's geometry is in range; holds for any tree
    /// built through the constructors and kept through `update`.
    pub fn is_well_formed(&self) -> (r: bool)
        ensures
            r == self.wf(),
    {
        crate::num::px_ok_exec(self.prev_mouse_pos.0) && crate::num::px_ok_exec(
            self.prev_mouse_pos.1,
        ) && crate::num::px_ok_exec(self.prev_screen.x) && crate::num::px_ok_exec(
            self.prev_screen.y,
        ) && crate::num::px_ok_exec(self.prev_screen.w) && crate::num::px_ok_exec(
            self.prev_screen.h,
        ) && children_wf_exec(&self.children)
    }

    /// One frame: derive the pointer and screen deltas, walk the tree
    /// once, and surface the single arbitrated action target — or
    /// nothing, when no node claimed the token or the tree is empty.
    /// After the pass at most one node in the whole tree carries an
    /// active action.
    pub fn update(&mut self, input: FrameInput) -> (r: Option<ActionTarget>)
        requires
            old(self).wf(),
        ensures
            old(self).children@.len() == 0 ==> r is None && *final(self) == *old(self),
            old(self).children@.len() > 0 ==> ({
                let ctx = root_ctx(*old(self), input);
                let scrn = screen_rect(input);
                let sd = screen_delta(*old(self), input);
                &&& children_step_ok(
                    old(self).children@,
                    final(self).children@,
                    Option::None,
                    scrn,
                    sd,
                    ctx,
                )
                &&& r == children_target(
                    old(self).children@,
                    Option::None,
                    scrn,
                    sd,
                    ctx,
                )
                &&& final(self).prev_mouse_pos == ctx.mouse_pos
                &&& final(self).prev_screen == scrn
                &&& final(self).theme == old(self).theme
                &&& final(self).id_counter == old(self).id_counter
            }),
            count_active_children(final(self).children@) <= 1,
            count_holding_children(final(self).children@) <= count_holding_children(
                old(self).children@,
            ) + 1,
            input.l_mouse != UiMouseAction::Down ==> count_holding_children(
                final(self).children@,
            ) <= count_holding_children(old(self).children@),
            input.l_mouse == UiMouseAction::Release ==> count_holding_children(
                final(self).children@,
            ) == 0,
            final(self).wf(),
    {
        if self.children.len() == 0 {
            return Option::None;
        }
        let mx = clamp_px(input.mouse_x);
        let my = clamp_px(input.mouse_y);
        let mouse_delta = (mx - self.prev_mouse_pos.0, my - self.prev_mouse_pos.1);
        self.prev_mouse_pos = (mx, my);
        let sw = clamp_px(input.screen_w);
        let sh = clamp_px(input.screen_h);
        let scrn = AbsRect { x: 0, y: 0, w: sw, h: sh };
        let screen_d = (sw - self.prev_screen.w, sh - self.prev_screen.h);
        self.prev_screen = scrn;
        let ctx = FrameCtx {
            mouse_pos: (mx, my),
            mouse_delta,
            l_mouse: input.l_mouse,
            r_mouse: input.r_mouse,
            keys_pressed: input.keys_pressed,
            shift_down: input.shift_down,
            backspace_pressed: input.backspace_pressed,
            backspace_down: input.backspace_down,
            time_delta_ms: input.time_delta_ms,
        };
        let mut target: Option<ActionTarget> = Option::None;
        let ghost pre_children = self.children@;
        update_children(&mut self.children, &mut target, &scrn, &screen_d, &ctx);
        proof {
            lemma_children_single_ownership(
                pre_children,
                self.children@,
                Option::None,
                scrn,
                screen_d,
                ctx,
            );
            lemma_children_holding_gain(
                pre_children,
                self.children@,
                Option::None,
                scrn,
                screen_d,
                ctx,
            );
            if ctx.l_mouse == UiMouseAction::Release {
                lemma_children_release_clears_holding(
                    pre_children,
                    self.children@,
                    Option::None,
                    scrn,
                    screen_d,
                    ctx,
                );
            }
        }
        target
    }
}

} // verus!
