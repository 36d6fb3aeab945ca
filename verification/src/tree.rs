//! The element tree and its per-frame update traversal.
//!
//! An update pass walks the tree once. Each node resolves its rectangle
//! top-down (a child needs its parent's new rectangle), while the action
//! token is offered bottom-up and back-to-front (children first, last
//! sibling first), so the visually topmost node claims the frame's single
//! action first. The specification functions here pin the traversal down
//! exactly: `children_target` says who ends up owning the token,
//! `children_step_ok` relates every node's new state to its old one.

use vstd::prelude::*;
use crate::geom::{AbsRect, size_delta_spec, size_delta, delta_ok};
use crate::node::{FrameCtx, ActionTarget, NodeCore, node_step, node_target_after, UiKind};
use crate::ui_box::UiBox;
use crate::ui_text::UiText;
use crate::ui_button::UiButton;
use crate::ui_input::UiInput;
use crate::ui_radio::UiRadio;
use crate::ui_input::{input_active_after, input_edit_step};
use crate::ui_radio::radio_checked_after;

verus! {

/// One node of the tree: a container or one of the four leaf kinds.
#[derive(Debug)]
pub enum UiElement {
    Container(UiBox),
    Text(UiText),
    Button(UiButton),
    Input(UiInput),
    Radio(UiRadio),
}

/// The shared per-node state of any element.
pub open spec fn elem_core(e: UiElement) -> NodeCore {
    match e {
        UiElement::Container(b) => b.node_core(),
        UiElement::Text(t) => t.node_core(),
        UiElement::Button(t) => t.node_core(),
        UiElement::Input(t) => t.node_core(),
        UiElement::Radio(t) => t.node_core(),
    }
}

/// The element's identity.
pub open spec fn elem_id(e: UiElement) -> u32 {
    elem_core(e).id
}

/// Well-formed geometry, through the whole subtree.
pub open spec fn elem_wf(e: UiElement) -> bool
    decreases e,
{
    match e {
        UiElement::Container(b) => b.abs_bounds.wf() && b.rel_bounds.wf() && children_wf(
            b.children@,
        ),
        UiElement::Text(t) => t.wf(),
        UiElement::Button(t) => t.wf(),
        UiElement::Input(t) => t.wf(),
        UiElement::Radio(t) => t.wf(),
    }
}

/// Well-formed geometry for every element of a sequence.
pub open spec fn children_wf(s: Seq<UiElement>) -> bool
    decreases s,
{
    if s.len() == 0 {
        true
    } else {
        elem_wf(s.first()) && children_wf(s.skip(1))
    }
}

/// Each element of a well-formed sequence is well-formed.
pub proof fn lemma_children_wf_index(s: Seq<UiElement>, i: int)
    requires
        children_wf(s),
        0 <= i < s.len(),
    ensures
        elem_wf(s[i]),
    decreases s.len(),
{
    if i == 0 {
        assert(s[0] == s.first());
    } else {
        lemma_children_wf_index(s.skip(1), i - 1);
        assert(s.skip(1)[i - 1] == s[i]);
    }
}

/// A sequence of well-formed elements is well-formed.
pub proof fn lemma_children_wf_pointwise(s: Seq<UiElement>)
    requires
        forall|i: int| 0 <= i < s.len() ==> elem_wf(#[trigger] s[i]),
    ensures
        children_wf(s),
    decreases s.len(),
{
    if s.len() > 0 {
        assert(s.first() == s[0]);
        assert(forall|i: int| 0 <= i < s.skip(1).len() ==> elem_wf(#[trigger] s.skip(1)[i]))
            by {
            assert forall|i: int| 0 <= i < s.skip(1).len() implies elem_wf(
                #[trigger] s.skip(1)[i],
            ) by {
                assert(s.skip(1)[i] == s[i + 1]);
            }
        }
        lemma_children_wf_pointwise(s.skip(1));
    }
}

/// The absolute rectangle an element's own layout step resolves to this
/// frame (it does not depend on the action token).
pub open spec fn elem_new_abs(
    e: UiElement,
    parent: AbsRect,
    parent_delta: (i64, i64),
    ctx: FrameCtx,
) -> AbsRect {
    node_step(elem_core(e), false, parent, parent_delta, ctx).abs
}

/// The action-target slot after an element's whole subtree has run:
/// children claim first (back to front), then the element itself.
pub open spec fn elem_target_after(
    e: UiElement,
    t0: Option<ActionTarget>,
    parent: AbsRect,
    parent_delta: (i64, i64),
    ctx: FrameCtx,
) -> Option<ActionTarget>
    decreases e,
{
    let t1 = match e {
        UiElement::Container(b) => {
            let abs1 = elem_new_abs(e, parent, parent_delta, ctx);
            let sd = size_delta_spec(b.abs_bounds, abs1);
            children_target(b.children@, t0, abs1, sd, ctx)
        },
        _ => t0,
    };
    node_target_after(elem_core(e), t1, parent, parent_delta, ctx)
}

/// The action-target slot after a whole child sequence has run, back to
/// front: the last child runs first, so it gets first refusal.
pub open spec fn children_target(
    s: Seq<UiElement>,
    t0: Option<ActionTarget>,
    parent: AbsRect,
    parent_delta: (i64, i64),
    ctx: FrameCtx,
) -> Option<ActionTarget>
    decreases s,
{
    if s.len() == 0 {
        t0
    } else {
        elem_target_after(
            s.first(),
            children_target(s.skip(1), t0, parent, parent_delta, ctx),
            parent,
            parent_delta,
            ctx,
        )
    }
}

/// How one element's new state relates to its old one after a frame,
/// given the action-target slot as it was when the element's subtree
/// started running.
pub open spec fn elem_step_ok(
    o: UiElement,
    n: UiElement,
    t0: Option<ActionTarget>,
    parent: AbsRect,
    parent_delta: (i64, i64),
    ctx: FrameCtx,
) -> bool
    decreases o,
{
    match o {
        UiElement::Container(ob) => match n {
            UiElement::Container(nb) => {
                let abs1 = elem_new_abs(o, parent, parent_delta, ctx);
                let sd = size_delta_spec(ob.abs_bounds, abs1);
                let t1 = children_target(ob.children@, t0, abs1, sd, ctx);
                let st = node_step(elem_core(o), t1 is None, parent, parent_delta, ctx);
                &&& nb.abs_bounds == st.abs
                &&& nb.rel_bounds == st.rel
                &&& nb.event == st.ev.event
                &&& nb.holding == st.ev.holding
                &&& nb.id == ob.id
                &&& nb.alignment == ob.alignment
                &&& nb.draggable == ob.draggable
                &&& nb.show_hover == ob.show_hover
                &&& nb.color == ob.color
                &&& nb.hover_color == ob.hover_color
                &&& nb.data == ob.data
                &&& children_step_ok(ob.children@, nb.children@, t0, abs1, sd, ctx)
            },
            _ => false,
        },
        UiElement::Text(ot) => match n {
            UiElement::Text(nt) => {
                let st = node_step(ot.node_core(), t0 is None, parent, parent_delta, ctx);
                &&& nt.abs_bounds == st.abs
                &&& nt.rel_bounds == st.rel
                &&& nt.event == st.ev.event
                &&& nt.holding == st.ev.holding
                &&& nt.id == ot.id
                &&& nt.alignment == ot.alignment
                &&& nt.draggable == ot.draggable
                &&& nt.text == ot.text
                &&& nt.font_size == ot.font_size
                &&& nt.data == ot.data
            },
            _ => false,
        },
        UiElement::Button(ot) => match n {
            UiElement::Button(nt) => {
                let st = node_step(ot.node_core(), t0 is None, parent, parent_delta, ctx);
                &&& nt.abs_bounds == st.abs
                &&& nt.rel_bounds == st.rel
                &&& nt.event == st.ev.event
                &&& nt.holding == st.ev.holding
                &&& nt.id == ot.id
                &&& nt.alignment == ot.alignment
                &&& nt.text == ot.text
                &&& nt.color == ot.color
                &&& nt.hover_color == ot.hover_color
                &&& nt.hold_color == ot.hold_color
                &&& nt.data == ot.data
            },
            _ => false,
        },
        UiElement::Input(ot) => match n {
            UiElement::Input(nt) => {
                let st = node_step(ot.node_core(), t0 is None, parent, parent_delta, ctx);
                let active = input_active_after(ot.is_active, st.ev.event);
                let ed = input_edit_step(
                    ot.input@,
                    ot.bksp_cooldown,
                    ot.blink_counter,
                    ot.show_blink,
                    active,
                    ctx,
                );
                &&& nt.abs_bounds == st.abs
                &&& nt.rel_bounds == st.rel
                &&& nt.event == st.ev.event
                &&& nt.holding == st.ev.holding
                &&& nt.is_active == active
                &&& nt.input@ == ed.text
                &&& nt.bksp_cooldown == ed.bksp_cooldown
                &&& nt.blink_counter == ed.blink_counter
                &&& nt.show_blink == ed.show_blink
                &&& nt.id == ot.id
                &&& nt.alignment == ot.alignment
                &&& nt.placeholder == ot.placeholder
                &&& nt.data == ot.data
            },
            _ => false,
        },
        UiElement::Radio(ot) => match n {
            UiElement::Radio(nt) => {
                let st = node_step(ot.node_core(), t0 is None, parent, parent_delta, ctx);
                &&& nt.abs_bounds == st.abs
                &&& nt.rel_bounds == st.rel
                &&& nt.event == st.ev.event
                &&& nt.holding == st.ev.holding
                &&& nt.checked == radio_checked_after(ot.checked, st.ev.event)
                &&& nt.id == ot.id
                &&& nt.alignment == ot.alignment
                &&& nt.label == ot.label
                &&& nt.cir_color == ot.cir_color
                &&& nt.data == ot.data
            },
            _ => false,
        },
    }
}

/// How a whole child sequence's new state relates to its old one: same
/// length, and each element stepped with the token as it stood when that
/// element ran (all later siblings, who ran earlier, already accounted
/// for).
pub open spec fn children_step_ok(
    os: Seq<UiElement>,
    ns: Seq<UiElement>,
    t0: Option<ActionTarget>,
    parent: AbsRect,
    parent_delta: (i64, i64),
    ctx: FrameCtx,
) -> bool
    decreases os,
{
    &&& os.len() == ns.len()
    &&& if os.len() == 0 {
        true
    } else {
        elem_step_ok(
            os.first(),
            ns.first(),
            children_target(os.skip(1), t0, parent, parent_delta, ctx),
            parent,
            parent_delta,
            ctx,
        ) && children_step_ok(os.skip(1), ns.skip(1), t0, parent, parent_delta, ctx)
    }
}

/// Update one element (and its whole subtree) for this frame.
pub(crate) fn update_element(
    e: &mut UiElement,
    target: &mut Option<ActionTarget>,
    parent_rect: &AbsRect,
    parent_delta: &(i64, i64),
    ctx: &FrameCtx,
)
    requires
        elem_wf(*old(e)),
        parent_rect.wf(),
        delta_ok(parent_delta.0),
        delta_ok(parent_delta.1),
        ctx.wf(),
    ensures
        elem_step_ok(*old(e), *final(e), *old(target), *parent_rect, *parent_delta, *ctx),
        *final(target) == elem_target_after(
            *old(e),
            *old(target),
            *parent_rect,
            *parent_delta,
            *ctx,
        ),
        elem_wf(*final(e)),
    decreases *e,
{
    let ghost e0 = *e;
    match e {
        UiElement::Container(b) => {
            let pos_update = crate::geom::resolve_rect(
                &b.abs_bounds,
                &b.rel_bounds,
                parent_rect,
                parent_delta,
                &b.alignment,
                &ctx.mouse_delta,
                b.draggable && b.holding,
            );
            let sd = size_delta(&b.abs_bounds, &pos_update.0);
            b.abs_bounds = pos_update.0;
            b.rel_bounds = pos_update.1;
            proof {
                assert(b.abs_bounds == elem_new_abs(e0, *parent_rect, *parent_delta, *ctx));
                assert(decreases_to!(e0 => b.children));
            }
            update_children(&mut b.children, target, &b.abs_bounds, &sd, ctx);
            let inbounds = crate::geom::point_in_rect(&ctx.mouse_pos, &b.abs_bounds);
            let mut action_available = target.is_none();
            b.event = crate::event::update_event(
                &mut action_available,
                inbounds,
                &mut b.holding,
                &b.event,
                &ctx.l_mouse,
                &ctx.r_mouse,
            );
            if !action_available && target.is_none() {
                *target = Some(
                    ActionTarget {
                        id: b.id,
                        event: b.event,
                        kind: UiKind::Container,
                        show_hover: b.show_hover,
                    },
                );
            }
        },
        UiElement::Text(t) => {
            t.update(target, parent_rect, parent_delta, ctx);
        },
        UiElement::Button(t) => {
            t.update(target, parent_rect, parent_delta, ctx);
        },
        UiElement::Input(t) => {
            t.update(target, parent_rect, parent_delta, ctx);
        },
        UiElement::Radio(t) => {
            t.update(target, parent_rect, parent_delta, ctx);
        },
    }
}

/// Update a child sequence back to front, then restore its order.
pub(crate) fn update_children(
    children: &mut Vec<UiElement>,
    target: &mut Option<ActionTarget>,
    parent_rect: &AbsRect,
    parent_delta: &(i64, i64),
    ctx: &FrameCtx,
)
    requires
        children_wf(old(children)@),
        parent_rect.wf(),
        delta_ok(parent_delta.0),
        delta_ok(parent_delta.1),
        ctx.wf(),
    ensures
        children_step_ok(
            old(children)@,
            final(children)@,
            *old(target),
            *parent_rect,
            *parent_delta,
            *ctx,
        ),
        *final(target) == children_target(
            old(children)@,
            *old(target),
            *parent_rect,
            *parent_delta,
            *ctx,
        ),
        children_wf(final(children)@),
    decreases *children,
{
    let ghost orig = children@;
    let ghost t0 = *target;
    let mut done: Vec<UiElement> = Vec::new();
    proof {
        assert(orig.skip(orig.len() as int) =~= Seq::<UiElement>::empty());
        assert(done@.reverse() =~= Seq::<UiElement>::empty());
    }
    while children.len() > 0
        invariant
            children@ == orig.take(children@.len() as int),
            children@.len() + done@.len() == orig.len(),
            children_wf(orig),
            old(children)@ == orig,
            *target == children_target(
                orig.skip(children@.len() as int),
                t0,
                *parent_rect,
                *parent_delta,
                *ctx,
            ),
            children_step_ok(
                orig.skip(children@.len() as int),
                done@.reverse(),
                t0,
                *parent_rect,
                *parent_delta,
                *ctx,
            ),
            forall|j: int| 0 <= j < done@.len() ==> elem_wf(#[trigger] done@[j]),
            parent_rect.wf(),
            delta_ok(parent_delta.0),
            delta_ok(parent_delta.1),
            ctx.wf(),
        decreases children.len(),
    {
        let ghost pre = children@;
        let ghost m = pre.len() as int;
        let mut el = children.pop().unwrap();
        proof {
            assert(pre == orig.take(m));
            assert(el == pre.last());
            assert(pre.last() == orig[m - 1]);
            assert(children@ =~= orig.take(m - 1));
            lemma_children_wf_index(orig, m - 1);
            assert(decreases_to!(*old(children) => old(children)@));
            assert(decreases_to!(old(children)@ => orig[m - 1]));
            assert(decreases_to!(*old(children) => el));
        }
        update_element(&mut el, target, parent_rect, parent_delta, ctx);
        proof {
            let tail = orig.skip(m);
            let whole = orig.skip(m - 1);
            assert(whole.first() == orig[m - 1]);
            assert(whole.skip(1) =~= tail);
            assert(*target == children_target(whole, t0, *parent_rect, *parent_delta, *ctx));
        }
        let ghost done_pre = done@;
        done.push(el);
        proof {
            let whole = orig.skip(m - 1);
            let tail = orig.skip(m);
            let rev = done@.reverse();
            assert(rev.len() == done_pre.len() + 1);
            assert(rev.first() == el);
            assert(rev.skip(1) =~= done_pre.reverse()) by {
                assert forall|k: int| 0 <= k < done_pre.len() implies rev.skip(1)[k]
                    == done_pre.reverse()[k] by {
                    assert(rev.skip(1)[k] == rev[k + 1]);
                    assert(rev[k + 1] == done@[done@.len() - 2 - k]);
                    assert(done@[done@.len() - 2 - k] == done_pre[done_pre.len() - 1 - k]);
                }
            }
            assert(whole.first() == orig[m - 1]);
            assert(whole.skip(1) =~= tail);
            assert(children_step_ok(whole, rev, t0, *parent_rect, *parent_delta, *ctx));
        }
    }
    // children is now empty and done holds the updated elements in
    // reverse order; move them back.
    let ghost fin = done@.reverse();
    proof {
        assert(children@.len() == 0);
        assert(orig.skip(0) =~= orig);
        assert(children@ =~= fin.take(0));
        assert(done@.reverse() =~= fin.skip(0));
    }
    while done.len() > 0
        invariant
            children@ == fin.take(children@.len() as int),
            children@.len() + done@.len() == fin.len(),
            done@.reverse() =~= fin.skip(children@.len() as int),
            *target == children_target(orig, t0, *parent_rect, *parent_delta, *ctx),
            children_step_ok(orig, fin, t0, *parent_rect, *parent_delta, *ctx),
            forall|j: int| 0 <= j < fin.len() ==> elem_wf(#[trigger] fin[j]),
        decreases done.len(),
    {
        let ghost pre_done = done@;
        let ghost k = children@.len() as int;
        let el = done.pop().unwrap();
        proof {
            assert(el == pre_done.last());
            assert(pre_done.reverse()[0] == pre_done.last());
            assert(fin.skip(k)[0] == fin[k]);
            assert(el == fin[k]);
            assert(done@.reverse() =~= fin.skip(k + 1)) by {
                assert forall|j: int| 0 <= j < done@.len() implies done@.reverse()[j]
                    == fin.skip(k + 1)[j] by {
                    assert(done@.reverse()[j] == done@[done@.len() - 1 - j]);
                    assert(done@[done@.len() - 1 - j] == pre_done[pre_done.len() - 2 - j]);
                    assert(pre_done.reverse()[j + 1] == pre_done[pre_done.len() - 2 - j]);
                    assert(pre_done.reverse()[j + 1] == fin.skip(k)[j + 1]);
                    assert(fin.skip(k)[j + 1] == fin[k + 1 + j]);
                    assert(fin.skip(k + 1)[j] == fin[k + 1 + j]);
                }
            }
        }
        children.push(el);
        proof {
            assert(children@ =~= fin.take(k + 1));
        }
    }
    proof {
        assert(children@ =~= fin);
        assert(forall|j: int| 0 <= j < children@.len() ==> elem_wf(#[trigger] children@[j]));
        lemma_children_wf_pointwise(children@);
    }
}

/// Find the element with the given id: a later sibling shadows an
/// earlier one, and a descendant shadows its container.
pub open spec fn find_in_elem(e: UiElement, id: u32) -> Option<UiElement>
    decreases e,
{
    match e {
        UiElement::Container(b) => {
            let deep = find_in_children(b.children@, id);
            if deep is Some {
                deep
            } else if b.id == id {
                Some(e)
            } else {
                Option::None
            }
        },
        _ => if elem_id(e) == id {
            Some(e)
        } else {
            Option::None
        },
    }
}

/// Find the element with the given id in a forest, later siblings first.
pub open spec fn find_in_children(s: Seq<UiElement>, id: u32) -> Option<UiElement>
    decreases s,
{
    if s.len() == 0 {
        Option::None
    } else {
        let deep = find_in_elem(s.last(), id);
        if deep is Some {
            deep
        } else {
            find_in_children(s.drop_last(), id)
        }
    }
}

/// Look an element up by id within one element's subtree.
pub(crate) fn find_elem<'a>(e: &'a UiElement, id: u32) -> (r: Option<&'a UiElement>)
    ensures
        match r {
            Some(er) => find_in_elem(*e, id) == Some(*er),
            Option::None => find_in_elem(*e, id) is None,
        },
    decreases *e,
{
    match e {
        UiElement::Container(b) => {
            proof {
                assert(decreases_to!(*e => b.children));
            }
            let deep = find_node(&b.children, id);
            if deep.is_some() {
                deep
            } else if b.id == id {
                Some(e)
            } else {
                Option::None
            }
        },
        UiElement::Text(t) => if t.id == id {
            Some(e)
        } else {
            Option::None
        },
        UiElement::Button(t) => if t.id == id {
            Some(e)
        } else {
            Option::None
        },
        UiElement::Input(t) => if t.id == id {
            Some(e)
        } else {
            Option::None
        },
        UiElement::Radio(t) => if t.id == id {
            Some(e)
        } else {
            Option::None
        },
    }
}

/// Look an element up by id in a forest, later siblings first.
pub(crate) fn find_node<'a>(children: &'a Vec<UiElement>, id: u32) -> (r: Option<&'a UiElement>)
    ensures
        match r {
            Some(er) => find_in_children(children@, id) == Some(*er),
            Option::None => find_in_children(children@, id) is None,
        },
    decreases *children,
{
    let mut i = children.len();
    proof {
        assert(children@.take(i as int) =~= children@);
    }
    while i > 0
        invariant
            i <= children@.len(),
            find_in_children(children@, id) == find_in_children(children@.take(i as int), id),
        decreases i,
    {
        i = i - 1;
        proof {
            assert(children@.take(i as int + 1).last() == children@[i as int]);
            assert(children@.take(i as int + 1).drop_last() =~= children@.take(i as int));
            assert(decreases_to!(*children => children@));
            assert(decreases_to!(children@ => children@[i as int]));
        }
        let found = find_elem(&children[i], id);
        if found.is_some() {
            return found;
        }
    }
    proof {
        assert(children@.take(0) =~= Seq::<UiElement>::empty());
    }
    Option::None
}

/// Whether an element's whole subtree has well-formed geometry,
/// executably.
pub fn elem_wf_exec(e: &UiElement) -> (r: bool)
    ensures
        r == elem_wf(*e),
    decreases *e,
{
    match e {
        UiElement::Container(b) => {
            let own = rect_wf_exec(&b.abs_bounds) && rel_wf_exec(&b.rel_bounds);
            if !own {
                return false;
            }
            proof {
                assert(decreases_to!(*e => b.children));
            }
            children_wf_exec(&b.children)
        },
        UiElement::Text(t) => rect_wf_exec(&t.abs_bounds) && rel_wf_exec(&t.rel_bounds),
        UiElement::Button(t) => rect_wf_exec(&t.abs_bounds) && rel_wf_exec(&t.rel_bounds),
        UiElement::Input(t) => rect_wf_exec(&t.abs_bounds) && rel_wf_exec(&t.rel_bounds),
        UiElement::Radio(t) => rect_wf_exec(&t.abs_bounds) && rel_wf_exec(&t.rel_bounds),
    }
}

/// Whether every element of a forest has well-formed geometry,
/// executably.
pub fn children_wf_exec(children: &Vec<UiElement>) -> (r: bool)
    ensures
        r == children_wf(children@),
    decreases *children,
{
    let mut i: usize = 0;
    while i < children.len()
        invariant
            i <= children@.len(),
            forall|j: int| 0 <= j < i ==> elem_wf(#[trigger] children@[j]),
        decreases children@.len() - i,
    {
        proof {
            assert(decreases_to!(*children => children@));
            assert(decreases_to!(children@ => children@[i as int]));
        }
        if !elem_wf_exec(&children[i]) {
            proof {
                if children_wf(children@) {
                    lemma_children_wf_index(children@, i as int);
                }
            }
            return false;
        }
        i = i + 1;
    }
    proof {
        lemma_children_wf_pointwise(children@);
    }
    true
}

fn rect_wf_exec(r: &crate::geom::AbsRect) -> (b: bool)
    ensures
        b == r.wf(),
{
    crate::num::px_ok_exec(r.x) && crate::num::px_ok_exec(r.y) && crate::num::px_ok_exec(r.w)
        && crate::num::px_ok_exec(r.h)
}

fn rel_wf_exec(r: &crate::geom::UiRect) -> (b: bool)
    ensures
        b == r.wf(),
{
    size_wf_exec(&r.x) && size_wf_exec(&r.y) && size_wf_exec(&r.w) && size_wf_exec(&r.h)
}

fn size_wf_exec(s: &crate::geom::UiSize) -> (b: bool)
    ensures
        b == s.wf(),
{
    match s {
        crate::geom::UiSize::Px(v) => crate::num::px_ok_exec(*v),
        crate::geom::UiSize::Percent(p) => crate::num::mille_ok_exec(*p),
    }
}

} // verus!
