//! The engine's global guarantees, stated and proved over the frame-step
//! specifications: single ownership of the action token, topmost-first
//! arbitration, click/release pairing, outside-click delivery, drag
//! idempotence, single-frame percent layout, caret-blink periodicity,
//! and backspace repeat pacing.

use vstd::prelude::*;
use crate::geom::{
    AbsRect, UiRect, UiSize, UiAlign, resolved_abs, resolved_rel, resolve_len, point_in_rect_spec,
};
use crate::num::{clamp_px_spec, tdiv};
use crate::event::{UiAction, UiMouseAction, update_event_spec};
use crate::node::{FrameCtx, ActionTarget, node_step, node_target_after};
use crate::tree::{
    UiElement, elem_core, elem_step_ok, children_step_ok, elem_target_after, children_target,
    elem_new_abs,
};
use crate::ui_input::{blink_step, backspace_step, BKSP_REPEAT_DELAY_MS};

verus! {

/// How many nodes of the subtree carry an "active" action (anything but
/// `Idle` and `LClickOuter`) this frame.
pub open spec fn count_active_elem(e: UiElement) -> nat
    decreases e,
{
    let own: nat = if elem_core(e).event.is_active() {
        1
    } else {
        0
    };
    match e {
        UiElement::Container(b) => own + count_active_children(b.children@),
        _ => own,
    }
}

/// How many nodes of a whole child forest carry an "active" action.
pub open spec fn count_active_children(s: Seq<UiElement>) -> nat
    decreases s,
{
    if s.len() == 0 {
        0
    } else {
        count_active_elem(s.first()) + count_active_children(s.skip(1))
    }
}

/// How many nodes of the subtree have captured the pointer.
pub open spec fn count_holding_elem(e: UiElement) -> nat
    decreases e,
{
    let own: nat = if elem_core(e).holding {
        1
    } else {
        0
    };
    match e {
        UiElement::Container(b) => own + count_holding_children(b.children@),
        _ => own,
    }
}

/// How many nodes of a whole child forest have captured the pointer.
pub open spec fn count_holding_children(s: Seq<UiElement>) -> nat
    decreases s,
{
    if s.len() == 0 {
        0
    } else {
        count_holding_elem(s.first()) + count_holding_children(s.skip(1))
    }
}

/// A left release clears every hold flag in a subtree, whether or not the
/// node saw the release inside its bounds.
pub proof fn lemma_elem_release_clears_holding(
    o: UiElement,
    n: UiElement,
    t0: Option<ActionTarget>,
    parent: AbsRect,
    parent_delta: (i64, i64),
    ctx: FrameCtx,
)
    requires
        elem_step_ok(o, n, t0, parent, parent_delta, ctx),
        ctx.l_mouse == UiMouseAction::Release,
    ensures
        count_holding_elem(n) == 0,
    decreases o,
{
    match o {
        UiElement::Container(ob) => {
            let nb = n->Container_0;
            let abs1 = elem_new_abs(o, parent, parent_delta, ctx);
            let sd = crate::geom::size_delta_spec(ob.abs_bounds, abs1);
            lemma_children_release_clears_holding(ob.children@, nb.children@, t0, abs1, sd, ctx);
        },
        _ => {},
    }
}

/// A left release clears every hold flag in a whole forest.
pub proof fn lemma_children_release_clears_holding(
    os: Seq<UiElement>,
    ns: Seq<UiElement>,
    t0: Option<ActionTarget>,
    parent: AbsRect,
    parent_delta: (i64, i64),
    ctx: FrameCtx,
)
    requires
        children_step_ok(os, ns, t0, parent, parent_delta, ctx),
        ctx.l_mouse == UiMouseAction::Release,
    ensures
        count_holding_children(ns) == 0,
    decreases os,
{
    if os.len() > 0 {
        let t_rest = children_target(os.skip(1), t0, parent, parent_delta, ctx);
        lemma_elem_release_clears_holding(os.first(), ns.first(), t_rest, parent, parent_delta, ctx);
        lemma_children_release_clears_holding(
            os.skip(1),
            ns.skip(1),
            t0,
            parent,
            parent_delta,
            ctx,
        );
    }
}

/// At most one node of a subtree can capture the pointer in one frame,
/// and only from the token: a subtree offered no token gains no hold, a
/// subtree that leaves the target slot empty gained none, and no sample
/// other than a left `Down` gains one anywhere.
pub proof fn lemma_elem_holding_gain(
    o: UiElement,
    n: UiElement,
    t0: Option<ActionTarget>,
    parent: AbsRect,
    parent_delta: (i64, i64),
    ctx: FrameCtx,
)
    requires
        elem_step_ok(o, n, t0, parent, parent_delta, ctx),
    ensures
        count_holding_elem(n) <= count_holding_elem(o) + if t0 is None {
            1int
        } else {
            0int
        },
        ctx.l_mouse != UiMouseAction::Down ==> count_holding_elem(n) <= count_holding_elem(o),
        elem_target_after(o, t0, parent, parent_delta, ctx) is None ==> count_holding_elem(n)
            <= count_holding_elem(o),
    decreases o,
{
    match o {
        UiElement::Container(ob) => {
            let nb = n->Container_0;
            let abs1 = elem_new_abs(o, parent, parent_delta, ctx);
            let sd = crate::geom::size_delta_spec(ob.abs_bounds, abs1);
            let t1 = children_target(ob.children@, t0, abs1, sd, ctx);
            lemma_children_holding_gain(ob.children@, nb.children@, t0, abs1, sd, ctx);
            lemma_children_target_some_monotone(ob.children@, t0, abs1, sd, ctx);
        },
        _ => {},
    }
}

/// At most one node of a whole forest can capture the pointer in one
/// frame.
pub proof fn lemma_children_holding_gain(
    os: Seq<UiElement>,
    ns: Seq<UiElement>,
    t0: Option<ActionTarget>,
    parent: AbsRect,
    parent_delta: (i64, i64),
    ctx: FrameCtx,
)
    requires
        children_step_ok(os, ns, t0, parent, parent_delta, ctx),
    ensures
        count_holding_children(ns) <= count_holding_children(os) + if t0 is None {
            1int
        } else {
            0int
        },
        ctx.l_mouse != UiMouseAction::Down ==> count_holding_children(ns)
            <= count_holding_children(os),
        children_target(os, t0, parent, parent_delta, ctx) is None ==> count_holding_children(ns)
            <= count_holding_children(os),
    decreases os,
{
    if os.len() > 0 {
        let t_rest = children_target(os.skip(1), t0, parent, parent_delta, ctx);
        lemma_children_holding_gain(os.skip(1), ns.skip(1), t0, parent, parent_delta, ctx);
        lemma_elem_holding_gain(os.first(), ns.first(), t_rest, parent, parent_delta, ctx);
        lemma_children_target_some_monotone(os.skip(1), t0, parent, parent_delta, ctx);
        lemma_elem_target_some_monotone(os.first(), t_rest, parent, parent_delta, ctx);
    }
}

/// Once the target slot is filled it stays filled: if processing a forest
/// leaves the slot empty, it was empty to begin with — and a filled slot
/// passes through unchanged.
pub proof fn lemma_children_target_some_monotone(
    s: Seq<UiElement>,
    t0: Option<ActionTarget>,
    parent: AbsRect,
    parent_delta: (i64, i64),
    ctx: FrameCtx,
)
    ensures
        t0 is Some ==> children_target(s, t0, parent, parent_delta, ctx) == t0,
        children_target(s, t0, parent, parent_delta, ctx) is None ==> t0 is None,
    decreases s,
{
    if s.len() > 0 {
        lemma_children_target_some_monotone(s.skip(1), t0, parent, parent_delta, ctx);
        lemma_elem_target_some_monotone(
            s.first(),
            children_target(s.skip(1), t0, parent, parent_delta, ctx),
            parent,
            parent_delta,
            ctx,
        );
    }
}

/// The same for a single element's subtree.
pub proof fn lemma_elem_target_some_monotone(
    e: UiElement,
    t0: Option<ActionTarget>,
    parent: AbsRect,
    parent_delta: (i64, i64),
    ctx: FrameCtx,
)
    ensures
        t0 is Some ==> elem_target_after(e, t0, parent, parent_delta, ctx) == t0,
        elem_target_after(e, t0, parent, parent_delta, ctx) is None ==> t0 is None,
    decreases e,
{
    match e {
        UiElement::Container(b) => {
            let abs1 = elem_new_abs(e, parent, parent_delta, ctx);
            let sd = crate::geom::size_delta_spec(b.abs_bounds, abs1);
            lemma_children_target_some_monotone(b.children@, t0, abs1, sd, ctx);
        },
        _ => {},
    }
}

/// An action derived without the token is never active: a node that does
/// not get the token shows `Idle` or, on an outside click, `LClickOuter`.
proof fn lemma_no_token_no_active(
    inbounds: bool,
    holding: bool,
    prev: UiAction,
    l: UiMouseAction,
    r: UiMouseAction,
)
    ensures
        !update_event_spec(false, inbounds, holding, prev, l, r).event.is_active(),
{
}

/// Single ownership, for one element's subtree: a subtree that starts
/// with the token gone activates nothing and leaves the target slot
/// alone; one that ends with the slot still empty activated nothing; and
/// no subtree ever activates more than one node.
pub proof fn lemma_elem_single_ownership(
    o: UiElement,
    n: UiElement,
    t0: Option<ActionTarget>,
    parent: AbsRect,
    parent_delta: (i64, i64),
    ctx: FrameCtx,
)
    requires
        elem_step_ok(o, n, t0, parent, parent_delta, ctx),
    ensures
        t0 is Some ==> count_active_elem(n) == 0 && elem_target_after(
            o,
            t0,
            parent,
            parent_delta,
            ctx,
        ) == t0,
        t0 is None && elem_target_after(o, t0, parent, parent_delta, ctx) is None
            ==> count_active_elem(n) == 0,
        count_active_elem(n) <= 1,
    decreases o,
{
    match o {
        UiElement::Container(ob) => {
            let nb = n->Container_0;
            let abs1 = elem_new_abs(o, parent, parent_delta, ctx);
            let sd = crate::geom::size_delta_spec(ob.abs_bounds, abs1);
            let t1 = children_target(ob.children@, t0, abs1, sd, ctx);
            lemma_children_single_ownership(ob.children@, nb.children@, t0, abs1, sd, ctx);
            if !(t1 is None) {
                lemma_no_token_no_active(
                    node_step(elem_core(o), false, parent, parent_delta, ctx).inbounds,
                    ob.holding,
                    ob.event,
                    ctx.l_mouse,
                    ctx.r_mouse,
                );
            }
        },
        _ => {
            if !(t0 is None) {
                lemma_no_token_no_active(
                    node_step(elem_core(o), false, parent, parent_delta, ctx).inbounds,
                    elem_core(o).holding,
                    elem_core(o).event,
                    ctx.l_mouse,
                    ctx.r_mouse,
                );
            }
        },
    }
}

/// Single ownership, for a whole child forest.
pub proof fn lemma_children_single_ownership(
    os: Seq<UiElement>,
    ns: Seq<UiElement>,
    t0: Option<ActionTarget>,
    parent: AbsRect,
    parent_delta: (i64, i64),
    ctx: FrameCtx,
)
    requires
        children_step_ok(os, ns, t0, parent, parent_delta, ctx),
    ensures
        t0 is Some ==> count_active_children(ns) == 0 && children_target(
            os,
            t0,
            parent,
            parent_delta,
            ctx,
        ) == t0,
        t0 is None && children_target(os, t0, parent, parent_delta, ctx) is None
            ==> count_active_children(ns) == 0,
        count_active_children(ns) <= 1,
    decreases os,
{
    if os.len() > 0 {
        let t_rest = children_target(os.skip(1), t0, parent, parent_delta, ctx);
        lemma_children_single_ownership(os.skip(1), ns.skip(1), t0, parent, parent_delta, ctx);
        lemma_elem_single_ownership(
            os.first(),
            ns.first(),
            t_rest,
            parent,
            parent_delta,
            ctx,
        );
    }
}

/// Topmost-wins: two overlapping childless siblings, the second added
/// after the first (so rendered on top), a pointer inside both, and a
/// left `Down` sample: the second sibling takes `LClick` and the first
/// stays `Idle`.
pub proof fn lemma_topmost_wins(
    a: UiElement,
    b: UiElement,
    na: UiElement,
    nb: UiElement,
    parent: AbsRect,
    parent_delta: (i64, i64),
    ctx: FrameCtx,
)
    requires
        children_step_ok(
            seq![a, b],
            seq![na, nb],
            Option::None,
            parent,
            parent_delta,
            ctx,
        ),
        a is Container ==> a->Container_0.children@.len() == 0,
        b is Container ==> b->Container_0.children@.len() == 0,
        ctx.l_mouse == UiMouseAction::Down,
        point_in_rect_spec(
            ctx.mouse_pos.0 as int,
            ctx.mouse_pos.1 as int,
            elem_new_abs(a, parent, parent_delta, ctx),
        ),
        point_in_rect_spec(
            ctx.mouse_pos.0 as int,
            ctx.mouse_pos.1 as int,
            elem_new_abs(b, parent, parent_delta, ctx),
        ),
    ensures
        elem_core(nb).event == UiAction::LClick,
        elem_core(na).event == UiAction::Idle,
{
    let os = seq![a, b];
    let ns = seq![na, nb];
    let nothing = Option::<ActionTarget>::None;
    assert(os.first() == a && ns.first() == na);
    assert(os.skip(1) =~= seq![b]);
    assert(ns.skip(1) =~= seq![nb]);
    assert(seq![b].first() == b && seq![nb].first() == nb);
    assert(seq![b].skip(1) =~= Seq::<UiElement>::empty());
    assert(seq![nb].skip(1) =~= Seq::<UiElement>::empty());
    assert(children_step_ok(seq![b], seq![nb], nothing, parent, parent_delta, ctx));
    assert(children_target(Seq::<UiElement>::empty(), nothing, parent, parent_delta, ctx)
        == nothing);
    assert(elem_step_ok(b, nb, nothing, parent, parent_delta, ctx));
    let tb = children_target(seq![b], nothing, parent, parent_delta, ctx);
    assert(tb == elem_target_after(b, nothing, parent, parent_delta, ctx));
    if b is Container {
        assert(b->Container_0.children@ =~= Seq::<UiElement>::empty());
        assert(children_target(
            b->Container_0.children@,
            nothing,
            elem_new_abs(b, parent, parent_delta, ctx),
            crate::geom::size_delta_spec(
                b->Container_0.abs_bounds,
                elem_new_abs(b, parent, parent_delta, ctx),
            ),
            ctx,
        ) == nothing);
    }
    assert(node_target_after(elem_core(b), nothing, parent, parent_delta, ctx) is Some);
    assert(tb is Some);
    assert(children_target(os.skip(1), nothing, parent, parent_delta, ctx) == tb);
    assert(elem_step_ok(a, na, tb, parent, parent_delta, ctx));
}

/// Click/release pairing: a left `Down` inside bounds with the token
/// available yields `LClick` and starts holding; a left `Release` inside
/// bounds on the next frame yields `LRelease` and stops holding.
pub proof fn lemma_click_release_pairing(
    prev: UiAction,
    holding0: bool,
    r1: UiMouseAction,
    r2: UiMouseAction,
)
    ensures
        ({
            let s1 = update_event_spec(true, true, holding0, prev, UiMouseAction::Down, r1);
            let s2 = update_event_spec(
                true,
                true,
                s1.holding,
                s1.event,
                UiMouseAction::Release,
                r2,
            );
            s1.event == UiAction::LClick && s1.holding && s2.event == UiAction::LRelease
                && !s2.holding
        }),
{
}

/// Outside click: a left `Down` with the pointer outside a node's bounds
/// yields `LClickOuter` on that node whatever the token says.
pub proof fn lemma_outside_click(
    avail: bool,
    holding: bool,
    prev: UiAction,
    r: UiMouseAction,
)
    ensures
        update_event_spec(avail, false, holding, prev, UiMouseAction::Down, r).event
            == UiAction::LClickOuter,
{
}

/// One dragged layout step with a zero pointer delta and an unchanged
/// parent leaves both rectangles exactly as they were, provided the
/// node's size was already resolved against this parent.
pub proof fn lemma_drag_no_motion(abs: AbsRect, rel: UiRect, parent: AbsRect, align: UiAlign)
    requires
        abs.wf(),
        rel.wf(),
        abs.w == resolve_len(rel.w, parent.w as int),
        abs.h == resolve_len(rel.h, parent.h as int),
    ensures
        resolved_abs(abs, rel, parent, (0i64, 0i64), align, (0i64, 0i64), true) == abs,
        resolved_rel(rel, parent, (0i64, 0i64), align, (0i64, 0i64), true) == rel,
{
}

/// `n` dragged layout steps under a still pointer and a still parent.
pub open spec fn iterate_drag(
    n: nat,
    abs: AbsRect,
    rel: UiRect,
    parent: AbsRect,
    align: UiAlign,
) -> (AbsRect, UiRect)
    decreases n,
{
    if n == 0 {
        (abs, rel)
    } else {
        let p = iterate_drag((n - 1) as nat, abs, rel, parent, align);
        (
            resolved_abs(p.0, p.1, parent, (0i64, 0i64), align, (0i64, 0i64), true),
            resolved_rel(p.1, parent, (0i64, 0i64), align, (0i64, 0i64), true),
        )
    }
}

/// Drag idempotence under no movement: any number of frames with a zero
/// pointer delta and an unchanged parent leave a dragged node's
/// rectangles byte-for-byte unchanged.
pub proof fn lemma_drag_no_motion_frames(
    n: nat,
    abs: AbsRect,
    rel: UiRect,
    parent: AbsRect,
    align: UiAlign,
)
    requires
        abs.wf(),
        rel.wf(),
        abs.w == resolve_len(rel.w, parent.w as int),
        abs.h == resolve_len(rel.h, parent.h as int),
    ensures
        iterate_drag(n, abs, rel, parent, align) == (abs, rel),
    decreases n,
{
    if n > 0 {
        lemma_drag_no_motion_frames((n - 1) as nat, abs, rel, parent, align);
        lemma_drag_no_motion(abs, rel, parent, align);
    }
}

/// Percent layout, single-frame convergence: a per-mille width resolves
/// against the parent's current width in the same frame, whatever the
/// rectangle held before.
pub proof fn lemma_percent_width(
    abs: AbsRect,
    rel: UiRect,
    parent: AbsRect,
    parent_delta: (i64, i64),
    align: UiAlign,
    mouse_delta: (i64, i64),
    dragging: bool,
    p: i64,
)
    requires
        rel.w == UiSize::Percent(p),
    ensures
        resolved_abs(abs, rel, parent, parent_delta, align, mouse_delta, dragging).w
            == clamp_px_spec(tdiv(p as int * parent.w as int, 1000)),
{
}

/// `n` caret-blink steps from a counter.
pub open spec fn blink_iter(n: nat, counter: u32, show: bool, dt: u32) -> (u32, bool)
    decreases n,
{
    if n == 0 {
        (counter, show)
    } else {
        let p = blink_iter((n - 1) as nat, counter, show, dt);
        blink_step(p.0, p.1, dt)
    }
}

/// Caret blink determinism at a fixed 100 ms frame step: starting from a
/// zero counter, the counter cycles through 0, 100, 200, 300, 400 and
/// the visibility flag toggles exactly once every five frames.
pub proof fn lemma_blink_five_frame_period(n: nat, show: bool)
    ensures
        blink_iter(n, 0, show, 100).0 == 100 * (n % 5),
        blink_iter(n, 0, show, 100).1 == if (n / 5) % 2 == 0 {
            show
        } else {
            !show
        },
    decreases n,
{
    if n > 0 {
        let m = (n - 1) as nat;
        lemma_blink_five_frame_period(m, show);
        assert(n == m + 1);
        assert(m % 5 < 5) by (nonlinear_arith);
        if m % 5 == 4 {
            assert(n % 5 == 0 && n / 5 == m / 5 + 1) by (nonlinear_arith)
                requires
                    m % 5 == 4,
                    n == m + 1,
            ;
            assert((m / 5 + 1) % 2 == (if m / 5 % 2 == 0 {
                1int
            } else {
                0int
            })) by (nonlinear_arith);
        } else {
            assert(n % 5 == m % 5 + 1 && n / 5 == m / 5) by (nonlinear_arith)
                requires
                    m % 5 < 4,
                    n == m + 1,
            ;
        }
    }
}

/// One frame of a held (not newly pressed) backspace key: the countdown
/// loses the frame's time; when it reaches zero one character is deleted
/// and the short repeat delay is re-armed.
pub open spec fn held_backspace_step(buf: Seq<char>, cooldown: u32, dt: u32) -> (Seq<char>, u32) {
    if buf.len() > 0 {
        let cd = if cooldown > dt {
            (cooldown - dt) as u32
        } else {
            0u32
        };
        if cd == 0 {
            (buf.drop_last(), BKSP_REPEAT_DELAY_MS)
        } else {
            (buf, cd)
        }
    } else {
        (buf, cooldown)
    }
}

/// On a frame whose backspace key is held but was not newly pressed, the
/// frame's backspace step is exactly the held step with the frame's
/// time.
pub proof fn lemma_backspace_step_held(buf: Seq<char>, cooldown: u32, ctx: FrameCtx)
    requires
        ctx.backspace_down,
        !ctx.backspace_pressed,
    ensures
        backspace_step(buf, cooldown, ctx) == held_backspace_step(
            buf,
            cooldown,
            ctx.time_delta_ms,
        ),
{
}

/// The backspace state after a run of held frames with the given frame
/// times.
pub open spec fn held_backspace_iter(ds: Seq<u32>, buf: Seq<char>, cooldown: u32) -> (
    Seq<char>,
    u32,
)
    decreases ds,
{
    if ds.len() == 0 {
        (buf, cooldown)
    } else {
        let s = held_backspace_step(buf, cooldown, ds.first());
        held_backspace_iter(ds.skip(1), s.0, s.1)
    }
}

/// The elapsed time of a run of frames, in milliseconds.
pub open spec fn total_ms(ds: Seq<u32>) -> int
    decreases ds,
{
    if ds.len() == 0 {
        0
    } else {
        ds.first() + total_ms(ds.skip(1))
    }
}

/// Backspace repeat keeps pace with time: over held frames of at most
/// `cap` milliseconds each, either the buffer is drained completely, or
/// every deleted character accounts for at most one repeat delay plus
/// one frame of overshoot — so the elapsed time never exceeds the armed
/// countdown plus `(60 + cap)` per deletion plus one final frame.
pub proof fn lemma_backspace_repeat_budget(ds: Seq<u32>, buf: Seq<char>, cooldown: u32, cap: u32)
    requires
        forall|i: int| 0 <= i < ds.len() ==> #[trigger] ds[i] <= cap,
    ensures
        ({
            let r = held_backspace_iter(ds, buf, cooldown);
            &&& r.0.len() <= buf.len()
            &&& buf.len() - r.0.len() <= ds.len()
            &&& r.0.len() == 0 || total_ms(ds) + r.1 <= cooldown + (60 + cap) * (buf.len()
                - r.0.len()) + cap
        }),
    decreases ds,
{
    if ds.len() > 0 {
        let s = held_backspace_step(buf, cooldown, ds.first());
        assert(forall|i: int| 0 <= i < ds.skip(1).len() ==> #[trigger] ds.skip(1)[i] <= cap)
            by {
            assert forall|i: int| 0 <= i < ds.skip(1).len() implies #[trigger] ds.skip(1)[i]
                <= cap by {
                assert(ds.skip(1)[i] == ds[i + 1]);
            }
        }
        assert(ds[0] == ds.first());
        lemma_backspace_repeat_budget(ds.skip(1), s.0, s.1, cap);
        let r = held_backspace_iter(ds.skip(1), s.0, s.1);
        let d_rest = s.0.len() - r.0.len();
        let d = buf.len() - r.0.len();
        if s.0.len() < buf.len() {
            // this frame fired: it spent at most the pending countdown
            // plus one frame of overshoot
            assert(d == d_rest + 1);
            assert((60 + cap) * d == (60 + cap) * d_rest + (60 + cap)) by (nonlinear_arith)
                requires
                    d == d_rest + 1,
            ;
        } else {
            assert(d == d_rest);
        }
    }
}

/// The backspace part of the editing scenario, in general: on a buffer
/// of at least three characters, a fresh press deletes one character and
/// arms the 500 ms first delay; held frames of at most `cap`
/// milliseconds each whose times add up to more than `560 + 2 * cap`
/// fire at least two repeats (or drain the buffer), for at least three
/// deleted characters in all. (With coarser frames the countdown can
/// overshoot by up to one frame per repeat, which is where the
/// `2 * cap` slack comes from.)
pub proof fn lemma_backspace_three_deletions(ds: Seq<u32>, buf: Seq<char>, cap: u32)
    requires
        forall|i: int| 0 <= i < ds.len() ==> #[trigger] ds[i] <= cap,
        buf.len() >= 3,
        total_ms(ds) > 560 + 2 * cap,
    ensures
        ({
            let after_press = buf.drop_last();
            let r = held_backspace_iter(ds, after_press, crate::ui_input::BKSP_FIRST_DELAY_MS);
            buf.len() - r.0.len() >= 3
        }),
{
    let after_press = buf.drop_last();
    lemma_backspace_repeat_budget(ds, after_press, crate::ui_input::BKSP_FIRST_DELAY_MS, cap);
    let r = held_backspace_iter(ds, after_press, crate::ui_input::BKSP_FIRST_DELAY_MS);
    let d = after_press.len() - r.0.len();
    if r.0.len() > 0 {
        assert((60 + cap) * d > (60 + cap) * 1 ==> d >= 2) by (nonlinear_arith);
    }
}

} // verus!
