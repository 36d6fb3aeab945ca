//! The render pass: a read-only walk of the just-updated tree that emits
//! draw commands, children in forward order so later siblings draw on
//! top. Every emitter's contract gives the exact command sequence.

use vstd::prelude::*;
use crate::num::tdiv;
use crate::event::UiAction;
use crate::color::{Color, contrast_color_spec, contrast_color, adjust_alpha};
use crate::theme::UiTheme;
use crate::draw::{DrawCmd, DrawOp, cmds_view, str_to_chars, copy_chars};
use crate::tree::{UiElement, elem_wf, children_wf, lemma_children_wf_index};
use crate::ui_box::UiBox;
use crate::ui_text::UiText;
use crate::ui_button::UiButton;
use crate::ui_input::UiInput;
use crate::ui_radio::UiRadio;
use crate::root::UiRoot;

verus! {

/// Pure black, the widgets' outline color.
pub open spec fn black() -> Color {
    Color { r: 0, g: 0, b: 0, a: 255 }
}

/// The label's one draw command: its text at the label's origin, half a
/// line below the top edge, in the color that contrasts with the parent.
pub open spec fn text_render_spec(t: UiText, theme: UiTheme, parent_color: Color) -> Seq<DrawOp> {
    seq![
        DrawOp::Text {
            chars: t.text@,
            x: t.abs_bounds.x as int,
            y: t.abs_bounds.y + tdiv(theme.font_size as int, 2),
            font_size: t.font_size,
            color: contrast_color_spec(parent_color),
        },
    ]
}

/// The fill color a button shows for its current action.
pub open spec fn button_active_color(b: UiButton) -> Color {
    match b.event {
        UiAction::Hover | UiAction::LClick => b.hover_color,
        UiAction::Hold | UiAction::LRelease => b.hold_color,
        _ => b.color,
    }
}

/// The button's draw commands: a pill (two end polygons with outlines, a
/// middle rectangle, two edge lines) and its centered label.
pub open spec fn button_render_spec(b: UiButton, theme: UiTheme) -> Seq<DrawOp> {
    let x = b.abs_bounds.x as int;
    let y = b.abs_bounds.y as int;
    let w = b.abs_bounds.w as int;
    let h = b.abs_bounds.h as int;
    let h2 = tdiv(h, 2);
    let ac = button_active_color(b);
    let tw = theme.text_width_spec(b.text@.len() as int) as int;
    let th = theme.font_size as int;
    seq![
        DrawOp::Poly { x: x + h2, y: y + h2, sides: 36, radius: h2, color: ac },
        DrawOp::Poly { x: x + w - h2, y: y + h2, sides: 36, radius: h2, color: ac },
        DrawOp::PolyLines { x: x + h2, y: y + h2, sides: 36, radius: h2, thickness: 1, color: black() },
        DrawOp::PolyLines {
            x: x + w - h2,
            y: y + h2,
            sides: 36,
            radius: h2,
            thickness: 1,
            color: black(),
        },
        DrawOp::Rect { x: x + h2, y: y, w: w - h, h: h, color: ac },
        DrawOp::Line { x1: x + h2, y1: y - 1, x2: x + w - h2, y2: y - 1, thickness: 1, color: black() },
        DrawOp::Line {
            x1: x + h2,
            y1: y + h + 1,
            x2: x + w - h2,
            y2: y + h + 1,
            thickness: 1,
            color: black(),
        },
        DrawOp::Text {
            chars: b.text@,
            x: x + tdiv(w - tw, 2),
            y: y + th + tdiv(h - th, 2),
            font_size: theme.font_size,
            color: contrast_color_spec(ac),
        },
    ]
}

/// The fill color an input shows: a focus color while active, otherwise
/// one keyed to its current action.
pub open spec fn input_active_color(i: UiInput, theme: UiTheme) -> Color {
    if i.is_active {
        theme.palette_4
    } else {
        match i.event {
            UiAction::Hover | UiAction::LClick => theme.palette_3,
            UiAction::Hold | UiAction::LRelease => theme.palette_5,
            _ => theme.palette_2,
        }
    }
}

/// The input's draw commands: its body, then the buffer (or, when idle
/// and empty, the dimmed placeholder), right-aligned when the buffer
/// outgrows the field so the caret stays visible, then the caret when it
/// blinks on, then the border.
pub open spec fn input_render_spec(i: UiInput, theme: UiTheme) -> Seq<DrawOp> {
    let x = i.abs_bounds.x as int;
    let y = i.abs_bounds.y as int;
    let w = i.abs_bounds.w as int;
    let h = i.abs_bounds.h as int;
    let ac = input_active_color(i, theme);
    let bw = theme.text_width_spec(i.input@.len() as int) as int;
    let txt_x = if bw > w {
        x + w - bw - 3
    } else {
        x + 3
    };
    let txt_y = y + h - 10;
    let body = seq![DrawOp::Rect { x: x, y: y, w: w, h: h, color: ac }];
    let text = if i.is_active || i.input@.len() > 0 {
        seq![
            DrawOp::Text {
                chars: i.input@,
                x: txt_x,
                y: txt_y,
                font_size: theme.font_size,
                color: contrast_color_spec(ac),
            },
        ]
    } else if i.placeholder@.len() > 0 {
        seq![
            DrawOp::Text {
                chars: i.placeholder@,
                x: txt_x,
                y: txt_y,
                font_size: theme.font_size,
                color: (Color { a: 153, ..contrast_color_spec(ac) }),
            },
        ]
    } else {
        Seq::<DrawOp>::empty()
    };
    let blinker = if i.is_active && i.show_blink {
        let bx = if bw > w {
            x + w - 3
        } else {
            x + bw + 3
        };
        seq![
            DrawOp::Line {
                x1: bx,
                y1: y + 2,
                x2: bx,
                y2: y + 2 + h - 4,
                thickness: 2,
                color: contrast_color_spec(ac),
            },
        ]
    } else {
        Seq::<DrawOp>::empty()
    };
    let border = seq![
        DrawOp::RectLines { x: x, y: y, w: w, h: h, thickness: 2, color: black() },
    ];
    body + text + blinker + border
}

/// The radio's draw commands: its circle (filled when checked) with an
/// outline, and its label when one is set.
pub open spec fn radio_render_spec(r: UiRadio, theme: UiTheme, parent_color: Color) -> Seq<
    DrawOp,
> {
    let x = r.abs_bounds.x as int;
    let y = r.abs_bounds.y as int;
    let h = r.abs_bounds.h as int;
    let cx = x + 12;
    let cy = y + tdiv(h, 2);
    let th = theme.font_size as int;
    let circle = seq![DrawOp::Poly { x: cx, y: cy, sides: 24, radius: 8, color: r.cir_color }];
    let mark = if r.checked {
        seq![
            DrawOp::Poly {
                x: cx,
                y: cy,
                sides: 24,
                radius: 4,
                color: contrast_color_spec(r.cir_color),
            },
        ]
    } else {
        Seq::<DrawOp>::empty()
    };
    let outline = seq![
        DrawOp::PolyLines { x: cx, y: cy, sides: 24, radius: 8, thickness: 1, color: black() },
    ];
    let label = if r.label@.len() > 0 {
        seq![
            DrawOp::Text {
                chars: r.label@,
                x: x + 24,
                y: y - 2 + tdiv(th + h, 2),
                font_size: theme.font_size,
                color: contrast_color_spec(parent_color),
            },
        ]
    } else {
        Seq::<DrawOp>::empty()
    };
    circle + mark + outline + label
}

/// The fill color a box shows: its hover color while a draggable box is
/// engaged, else its base color.
pub open spec fn box_active_color(b: UiBox) -> Color {
    match b.event {
        UiAction::Hover | UiAction::Hold | UiAction::LClick | UiAction::LRelease => {
            if b.draggable {
                b.hover_color
            } else {
                b.color
            }
        },
        _ => b.color,
    }
}

/// One element's draw commands: a box draws its drop shadow, its body,
/// then its children front to back over it; leaves draw themselves.
pub open spec fn elem_render_spec(e: UiElement, theme: UiTheme, parent_color: Color) -> Seq<
    DrawOp,
>
    decreases e,
{
    match e {
        UiElement::Container(b) => {
            let x = b.abs_bounds.x as int;
            let y = b.abs_bounds.y as int;
            let w = b.abs_bounds.w as int;
            let h = b.abs_bounds.h as int;
            let ac = box_active_color(b);
            seq![
                DrawOp::Rect { x: x - 1, y: y - 1, w: w + 4, h: h + 6, color: theme.shadow_color },
                DrawOp::Rect { x: x, y: y, w: w, h: h, color: ac },
            ] + children_render_spec(b.children@, theme, ac)
        },
        UiElement::Text(t) => text_render_spec(t, theme, parent_color),
        UiElement::Button(t) => button_render_spec(t, theme),
        UiElement::Input(t) => input_render_spec(t, theme),
        UiElement::Radio(t) => radio_render_spec(t, theme, parent_color),
    }
}

/// A forest's draw commands, in forward order.
pub open spec fn children_render_spec(
    s: Seq<UiElement>,
    theme: UiTheme,
    parent_color: Color,
) -> Seq<DrawOp>
    decreases s,
{
    if s.len() == 0 {
        Seq::<DrawOp>::empty()
    } else {
        elem_render_spec(s.first(), theme, parent_color) + children_render_spec(
            s.skip(1),
            theme,
            parent_color,
        )
    }
}

/// A prefix of a forest's commands grows element by element.
proof fn lemma_children_render_snoc(s: Seq<UiElement>, i: int, theme: UiTheme, parent_color: Color)
    requires
        0 <= i < s.len(),
    ensures
        children_render_spec(s.take(i + 1), theme, parent_color) =~= children_render_spec(
            s.take(i),
            theme,
            parent_color,
        ) + elem_render_spec(s[i], theme, parent_color),
    decreases i,
{
    if i == 0 {
        assert(s.take(1).first() == s[0]);
        assert(s.take(1).skip(1) =~= Seq::<UiElement>::empty());
        assert(s.take(0) =~= Seq::<UiElement>::empty());
        assert(children_render_spec(Seq::<UiElement>::empty(), theme, parent_color)
            =~= Seq::<DrawOp>::empty());
    } else {
        lemma_children_render_snoc(s.skip(1), i - 1, theme, parent_color);
        assert(s.take(i + 1).first() == s[0]);
        assert(s.take(i + 1).skip(1) =~= s.skip(1).take(i));
        assert(s.take(i).first() == s[0]);
        assert(s.take(i).skip(1) =~= s.skip(1).take(i - 1));
        assert(s.skip(1)[i - 1] == s[i]);
        assert(children_render_spec(s.take(i + 1), theme, parent_color)
            =~= elem_render_spec(s[0], theme, parent_color) + children_render_spec(
            s.skip(1).take(i),
            theme,
            parent_color,
        ));
        assert(elem_render_spec(s[0], theme, parent_color) + (children_render_spec(
            s.skip(1).take(i - 1),
            theme,
            parent_color,
        ) + elem_render_spec(s[i], theme, parent_color)) =~= (elem_render_spec(
            s[0],
            theme,
            parent_color,
        ) + children_render_spec(s.skip(1).take(i - 1), theme, parent_color))
            + elem_render_spec(s[i], theme, parent_color));
    }
}

/// Emit one element's draw commands after whatever is already in `out`.
pub(crate) fn render_element(
    e: &UiElement,
    theme: &UiTheme,
    parent_color: &Color,
    out: &mut Vec<DrawCmd>,
)
    requires
        elem_wf(*e),
    ensures
        cmds_view(final(out)@) =~= cmds_view(old(out)@) + elem_render_spec(
            *e,
            *theme,
            *parent_color,
        ),
    decreases *e,
{
    match e {
        UiElement::Container(b) => {
            let ac = match b.event {
                UiAction::Hover | UiAction::Hold | UiAction::LClick | UiAction::LRelease => {
                    if b.draggable {
                        b.hover_color
                    } else {
                        b.color
                    }
                },
                _ => b.color,
            };
            let ghost mid0 = out@;
            out.push(
                DrawCmd::Rect {
                    x: b.abs_bounds.x - 1,
                    y: b.abs_bounds.y - 1,
                    w: b.abs_bounds.w + 4,
                    h: b.abs_bounds.h + 6,
                    color: theme.shadow_color,
                },
            );
            out.push(
                DrawCmd::Rect {
                    x: b.abs_bounds.x,
                    y: b.abs_bounds.y,
                    w: b.abs_bounds.w,
                    h: b.abs_bounds.h,
                    color: ac,
                },
            );
            proof {
                assert(cmds_view(out@) =~= cmds_view(old(out)@) + seq![
                    DrawOp::Rect {
                        x: b.abs_bounds.x - 1,
                        y: b.abs_bounds.y - 1,
                        w: b.abs_bounds.w + 4,
                        h: b.abs_bounds.h + 6,
                        color: theme.shadow_color,
                    },
                    DrawOp::Rect {
                        x: b.abs_bounds.x as int,
                        y: b.abs_bounds.y as int,
                        w: b.abs_bounds.w as int,
                        h: b.abs_bounds.h as int,
                        color: ac,
                    },
                ]);
                assert(decreases_to!(*e => b.children));
            }
            render_children(&b.children, theme, &ac, out);
            proof {
                assert(cmds_view(out@) =~= cmds_view(old(out)@) + elem_render_spec(
                    *e,
                    *theme,
                    *parent_color,
                ));
            }
        },
        UiElement::Text(t) => {
            let chars = str_to_chars(t.text.as_str());
            let ty = t.abs_bounds.y + crate::num::div_trunc(theme.font_size as i64, 2);
            let ghost pre = out@;
            out.push(
                DrawCmd::Text {
                    chars,
                    x: t.abs_bounds.x,
                    y: ty,
                    font_size: t.font_size,
                    color: contrast_color(parent_color),
                },
            );
            proof {
                assert(cmds_view(out@) =~= cmds_view(pre) + text_render_spec(
                    *t,
                    *theme,
                    *parent_color,
                ));
            }
        },
        UiElement::Button(t) => {
            render_button(t, theme, out);
        },
        UiElement::Input(t) => {
            render_input(t, theme, out);
        },
        UiElement::Radio(t) => {
            render_radio(t, theme, parent_color, out);
        },
    }
}

/// Emit a forest's draw commands, in forward order, after whatever is
/// already in `out`.
pub(crate) fn render_children(
    children: &Vec<UiElement>,
    theme: &UiTheme,
    parent_color: &Color,
    out: &mut Vec<DrawCmd>,
)
    requires
        children_wf(children@),
    ensures
        cmds_view(final(out)@) =~= cmds_view(old(out)@) + children_render_spec(
            children@,
            *theme,
            *parent_color,
        ),
    decreases *children,
{
    let ghost base = out@;
    let mut i: usize = 0;
    proof {
        assert(children@.take(0) =~= Seq::<UiElement>::empty());
    }
    while i < children.len()
        invariant
            i <= children@.len(),
            children_wf(children@),
            cmds_view(out@) =~= cmds_view(base) + children_render_spec(
                children@.take(i as int),
                *theme,
                *parent_color,
            ),
        decreases children@.len() - i,
    {
        proof {
            lemma_children_wf_index(children@, i as int);
            assert(decreases_to!(*children => children@));
            assert(decreases_to!(children@ => children@[i as int]));
        }
        let ghost before = out@;
        render_element(&children[i], theme, parent_color, out);
        proof {
            lemma_children_render_snoc(children@, i as int, *theme, *parent_color);
            assert(cmds_view(out@) =~= cmds_view(base) + children_render_spec(
                children@.take(i as int + 1),
                *theme,
                *parent_color,
            ));
        }
        i = i + 1;
    }
    proof {
        assert(children@.take(children@.len() as int) =~= children@);
    }
}

fn render_button(t: &UiButton, theme: &UiTheme, out: &mut Vec<DrawCmd>)
    requires
        t.wf(),
    ensures
        cmds_view(final(out)@) =~= cmds_view(old(out)@) + button_render_spec(*t, *theme),
{
    let x = t.abs_bounds.x;
    let y = t.abs_bounds.y;
    let w = t.abs_bounds.w;
    let h = t.abs_bounds.h;
    let h2 = crate::num::div_trunc(h, 2);
    let ac = match t.event {
        UiAction::Hover | UiAction::LClick => t.hover_color,
        UiAction::Hold | UiAction::LRelease => t.hold_color,
        _ => t.color,
    };
    let bl = Color::black();
    let chars = str_to_chars(t.text.as_str());
    let tw = theme.text_width(chars.len());
    let th = theme.text_height();
    out.push(DrawCmd::Poly { x: x + h2, y: y + h2, sides: 36, radius: h2, color: ac });
    out.push(DrawCmd::Poly { x: x + w - h2, y: y + h2, sides: 36, radius: h2, color: ac });
    out.push(
        DrawCmd::PolyLines { x: x + h2, y: y + h2, sides: 36, radius: h2, thickness: 1, color: bl },
    );
    out.push(
        DrawCmd::PolyLines {
            x: x + w - h2,
            y: y + h2,
            sides: 36,
            radius: h2,
            thickness: 1,
            color: bl,
        },
    );
    out.push(DrawCmd::Rect { x: x + h2, y: y, w: w - h, h: h, color: ac });
    out.push(
        DrawCmd::Line { x1: x + h2, y1: y - 1, x2: x + w - h2, y2: y - 1, thickness: 1, color: bl },
    );
    out.push(
        DrawCmd::Line {
            x1: x + h2,
            y1: y + h + 1,
            x2: x + w - h2,
            y2: y + h + 1,
            thickness: 1,
            color: bl,
        },
    );
    let tx = x + crate::num::div_trunc(w - tw, 2);
    let ty = y + th + crate::num::div_trunc(h - th, 2);
    out.push(
        DrawCmd::Text { chars, x: tx, y: ty, font_size: theme.font_size, color: contrast_color(
            &ac,
        ) },
    );
    proof {
        assert(cmds_view(out@) =~= cmds_view(old(out)@) + button_render_spec(*t, *theme));
    }
}

fn render_input(t: &UiInput, theme: &UiTheme, out: &mut Vec<DrawCmd>)
    requires
        t.wf(),
    ensures
        cmds_view(final(out)@) =~= cmds_view(old(out)@) + input_render_spec(*t, *theme),
{
    let x = t.abs_bounds.x;
    let y = t.abs_bounds.y;
    let w = t.abs_bounds.w;
    let h = t.abs_bounds.h;
    let ac = if t.is_active {
        theme.palette_4
    } else {
        match t.event {
            UiAction::Hover | UiAction::LClick => theme.palette_3,
            UiAction::Hold | UiAction::LRelease => theme.palette_5,
            _ => theme.palette_2,
        }
    };
    let bw = theme.text_width(t.input.len());
    let txt_x = if bw > w {
        x + w - bw - 3
    } else {
        x + 3
    };
    let txt_y = y + h - 10;
    out.push(DrawCmd::Rect { x: x, y: y, w: w, h: h, color: ac });
    if t.is_active || t.input.len() > 0 {
        let chars = copy_chars(&t.input);
        out.push(
            DrawCmd::Text {
                chars,
                x: txt_x,
                y: txt_y,
                font_size: theme.font_size,
                color: contrast_color(&ac),
            },
        );
    } else if !t.placeholder.as_str().is_empty() {
        let chars = str_to_chars(t.placeholder.as_str());
        let dim = adjust_alpha(&contrast_color(&ac), 153);
        out.push(
            DrawCmd::Text { chars, x: txt_x, y: txt_y, font_size: theme.font_size, color: dim },
        );
    }
    if t.is_active && t.show_blink {
        let bx = if bw > w {
            x + w - 3
        } else {
            x + bw + 3
        };
        out.push(
            DrawCmd::Line {
                x1: bx,
                y1: y + 2,
                x2: bx,
                y2: y + 2 + h - 4,
                thickness: 2,
                color: contrast_color(&ac),
            },
        );
    }
    out.push(DrawCmd::RectLines { x: x, y: y, w: w, h: h, thickness: 2, color: Color::black() });
    proof {
        assert(cmds_view(out@) =~= cmds_view(old(out)@) + input_render_spec(*t, *theme));
    }
}

fn render_radio(t: &UiRadio, theme: &UiTheme, parent_color: &Color, out: &mut Vec<DrawCmd>)
    requires
        t.wf(),
    ensures
        cmds_view(final(out)@) =~= cmds_view(old(out)@) + radio_render_spec(
            *t,
            *theme,
            *parent_color,
        ),
{
    let x = t.abs_bounds.x;
    let y = t.abs_bounds.y;
    let h = t.abs_bounds.h;
    let cx = x + 12;
    let cy = y + crate::num::div_trunc(h, 2);
    out.push(DrawCmd::Poly { x: cx, y: cy, sides: 24, radius: 8, color: t.cir_color });
    if t.checked {
        out.push(
            DrawCmd::Poly { x: cx, y: cy, sides: 24, radius: 4, color: contrast_color(
                &t.cir_color,
            ) },
        );
    }
    out.push(
        DrawCmd::PolyLines { x: cx, y: cy, sides: 24, radius: 8, thickness: 1, color: Color::black() },
    );
    if !t.label.as_str().is_empty() {
        let chars = str_to_chars(t.label.as_str());
        let th = theme.text_height();
        let ty = y - 2 + crate::num::div_trunc(th + h, 2);
        out.push(
            DrawCmd::Text {
                chars,
                x: x + 24,
                y: ty,
                font_size: theme.font_size,
                color: contrast_color(parent_color),
            },
        );
    }
    proof {
        assert(cmds_view(out@) =~= cmds_view(old(out)@) + radio_render_spec(
            *t,
            *theme,
            *parent_color,
        ));
    }
}

impl UiRoot {
    /// Draw the whole tree: every top-level element in order, its
    /// children over it, on a white ambient background color.
    pub fn render(&self) -> (r: Vec<DrawCmd>)
        requires
            self.wf(),
        ensures
            cmds_view(r@) =~= children_render_spec(
                self.children@,
                self.theme,
                Color { r: 255, g: 255, b: 255, a: 255 },
            ),
    {
        let mut out: Vec<DrawCmd> = Vec::new();
        let white = Color::white();
        render_children(&self.children, &self.theme, &white, &mut out);
        out
    }
}

} // verus!
