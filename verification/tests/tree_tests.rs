use retained_ui::{
    AbsRect, ActionTarget, Color, FrameInput, UiAction, UiBox, UiBoxParams, UiButton,
    UiButtonParams, UiCursor, UiElement, UiKind, UiMetaData, UiMouseAction, UiRect, UiRoot,
    UiSize, UiTheme, cursor_hint,
};

fn frame(mouse: (i64, i64), l: UiMouseAction, r: UiMouseAction) -> FrameInput {
    FrameInput {
        mouse_x: mouse.0,
        mouse_y: mouse.1,
        l_mouse: l,
        r_mouse: r,
        keys_pressed: Vec::new(),
        shift_down: false,
        backspace_pressed: false,
        backspace_down: false,
        time_delta_ms: 16,
        screen_w: 800,
        screen_h: 600,
    }
}

fn button_at(id: u32, x: i64, y: i64, w: i64, h: i64) -> UiButton {
    UiButton::new(
        id,
        UiButtonParams { pos_size: UiRect::from_px(x, y, w, h), ..Default::default() },
    )
}

fn event_of(e: &UiElement) -> UiAction {
    match e {
        UiElement::Container(b) => b.event,
        UiElement::Text(t) => t.event,
        UiElement::Button(t) => t.event,
        UiElement::Input(t) => t.event,
        UiElement::Radio(t) => t.event,
    }
}

fn count_active(e: &UiElement) -> usize {
    let own = {
        let ev = event_of(e);
        if ev != UiAction::Idle && ev != UiAction::LClickOuter {
            1
        } else {
            0
        }
    };
    match e {
        UiElement::Container(b) => own + b.children.iter().map(count_active).sum::<usize>(),
        _ => own,
    }
}

#[test]
fn single_ownership_across_overlapping_tree() {
    let mut root = UiRoot::new(800, 600);
    let mut outer = UiBox::new(UiBoxParams {
        id: 1,
        pos_size: UiRect::from_px(0, 0, 400, 400),
        ..Default::default()
    });
    outer.add_child(UiElement::Button(button_at(2, 10, 10, 100, 30)));
    outer.add_child(UiElement::Button(button_at(3, 10, 10, 100, 30)));
    root.add_child(UiElement::Container(outer));
    root.add_child(UiElement::Button(button_at(4, 0, 0, 400, 400)));
    // pointer inside every node's bounds, press
    root.update(frame((50, 20), UiMouseAction::Down, UiMouseAction::Idle));
    let total: usize = root.children.iter().map(count_active).sum();
    assert_eq!(total, 1);
    // and the owner is the last-added top-level sibling
    assert_eq!(event_of(&root.children[1]), UiAction::LClick);
}

#[test]
fn topmost_sibling_wins_the_click() {
    let mut root = UiRoot::new(800, 600);
    root.add_child(UiElement::Button(button_at(1, 10, 10, 100, 30)));
    root.add_child(UiElement::Button(button_at(2, 10, 10, 100, 30)));
    let target = root.update(frame((20, 20), UiMouseAction::Down, UiMouseAction::Idle));
    let target = target.expect("the press must be claimed");
    assert_eq!(target.id, 2);
    assert_eq!(target.event, UiAction::LClick);
    assert_eq!(event_of(&root.children[1]), UiAction::LClick);
    assert_eq!(event_of(&root.children[0]), UiAction::Idle);
}

#[test]
fn click_then_release_pairs_on_one_node() {
    let mut root = UiRoot::new(800, 600);
    root.add_child(UiElement::Button(button_at(7, 10, 10, 100, 30)));
    let t1 = root
        .update(frame((20, 20), UiMouseAction::Down, UiMouseAction::Idle))
        .expect("claimed");
    assert_eq!(t1.event, UiAction::LClick);
    match &root.children[0] {
        UiElement::Button(b) => assert!(b.is_holding()),
        _ => unreachable!(),
    }
    let t2 = root
        .update(frame((20, 20), UiMouseAction::Release, UiMouseAction::Idle))
        .expect("claimed");
    assert_eq!(t2.event, UiAction::LRelease);
    match &root.children[0] {
        UiElement::Button(b) => assert!(!b.is_holding()),
        _ => unreachable!(),
    }
}

#[test]
fn outside_down_yields_outer_click() {
    let mut root = UiRoot::new(800, 600);
    root.add_child(UiElement::Button(button_at(7, 10, 10, 100, 30)));
    root.update(frame((500, 500), UiMouseAction::Down, UiMouseAction::Idle));
    assert_eq!(event_of(&root.children[0]), UiAction::LClickOuter);
}

#[test]
fn drag_without_motion_keeps_bounds_exactly() {
    let mut root = UiRoot::new(800, 600);
    let b = UiBox::new(UiBoxParams {
        id: 1,
        pos_size: UiRect::from_px(100, 100, 50, 50),
        draggable: true,
        show_hover: true,
        ..Default::default()
    });
    root.add_child(UiElement::Container(b));
    // settle the layout, then press inside
    root.update(frame((0, 0), UiMouseAction::Idle, UiMouseAction::Idle));
    root.update(frame((110, 110), UiMouseAction::Down, UiMouseAction::Idle));
    let held = match &root.children[0] {
        UiElement::Container(b) => {
            assert!(b.is_holding());
            b.bounds()
        },
        _ => unreachable!(),
    };
    assert_eq!(held, AbsRect { x: 100, y: 100, w: 50, h: 50 });
    for _ in 0..5 {
        root.update(frame((110, 110), UiMouseAction::Hold, UiMouseAction::Idle));
        match &root.children[0] {
            UiElement::Container(b) => assert_eq!(b.bounds(), held),
            _ => unreachable!(),
        }
    }
}

#[test]
fn drag_follows_pointer_delta() {
    let mut root = UiRoot::new(800, 600);
    let b = UiBox::new(UiBoxParams {
        id: 1,
        pos_size: UiRect::from_px(100, 100, 50, 50),
        draggable: true,
        ..Default::default()
    });
    root.add_child(UiElement::Container(b));
    root.update(frame((110, 110), UiMouseAction::Idle, UiMouseAction::Idle));
    root.update(frame((110, 110), UiMouseAction::Down, UiMouseAction::Idle));
    root.update(frame((115, 108), UiMouseAction::Hold, UiMouseAction::Idle));
    match &root.children[0] {
        UiElement::Container(b) => {
            assert_eq!(b.bounds(), AbsRect { x: 105, y: 98, w: 50, h: 50 });
            assert_eq!(b.rel_bounds.x, UiSize::Px(105));
            assert_eq!(b.rel_bounds.y, UiSize::Px(98));
        },
        _ => unreachable!(),
    }
}

#[test]
fn percent_child_tracks_parent_resize_in_one_frame() {
    let mut root = UiRoot::new(200, 600);
    let mut outer = UiBox::new(UiBoxParams {
        id: 1,
        pos_size: UiRect {
            x: UiSize::Px(0),
            y: UiSize::Px(0),
            w: UiSize::Percent(1000),
            h: UiSize::Px(100),
        },
        ..Default::default()
    });
    let inner = UiBox::new(UiBoxParams {
        id: 2,
        pos_size: UiRect {
            x: UiSize::Px(0),
            y: UiSize::Px(0),
            w: UiSize::Percent(500),
            h: UiSize::Px(50),
        },
        ..Default::default()
    });
    outer.add_child(UiElement::Container(inner));
    root.add_child(UiElement::Container(outer));
    // first frame: screen 200 wide, the child resolves to half of it
    let mut input = frame((0, 0), UiMouseAction::Idle, UiMouseAction::Idle);
    input.screen_w = 200;
    root.update(input);
    match &root.children[0] {
        UiElement::Container(outer) => match &outer.children[0] {
            UiElement::Container(inner) => assert_eq!(inner.bounds().w, 100),
            _ => unreachable!(),
        },
        _ => unreachable!(),
    }
    // resize to 400: the child is exactly 200 wide the very next frame
    let mut input = frame((0, 0), UiMouseAction::Idle, UiMouseAction::Idle);
    input.screen_w = 400;
    root.update(input);
    match &root.children[0] {
        UiElement::Container(outer) => {
            assert_eq!(outer.bounds().w, 400);
            match &outer.children[0] {
                UiElement::Container(inner) => assert_eq!(inner.bounds().w, 200),
                _ => unreachable!(),
            }
        },
        _ => unreachable!(),
    }
}

#[test]
fn find_element_prefers_later_siblings_and_descendants() {
    let mut root = UiRoot::new(800, 600);
    let mut outer = UiBox::new(UiBoxParams { id: 5, ..Default::default() });
    outer.add_child(UiElement::Button(button_at(6, 0, 0, 10, 10)));
    root.add_child(UiElement::Container(outer));
    root.add_child(UiElement::Button(button_at(6, 1, 1, 20, 20)));
    // two nodes share id 6: the later top-level sibling wins
    match root.find_element(6) {
        Some(UiElement::Button(b)) => assert_eq!(b.rel_bounds.w, UiSize::Px(20)),
        _ => panic!("expected the later button"),
    }
    assert!(root.find_element(5).is_some());
    assert!(root.find_element(99).is_none());
}

#[test]
fn new_id_counts_up() {
    let mut root = UiRoot::new(800, 600);
    assert_eq!(root.new_id(), 1);
    assert_eq!(root.new_id(), 2);
    assert_eq!(root.new_id(), 3);
}

#[test]
fn empty_root_update_returns_nothing() {
    let mut root = UiRoot::new(800, 600);
    assert!(root.update(frame((10, 10), UiMouseAction::Down, UiMouseAction::Idle)).is_none());
}

#[test]
fn cursor_hint_follows_target_kind() {
    assert_eq!(cursor_hint(&None), UiCursor::Standard);
    let pointer = ActionTarget {
        id: 1,
        event: UiAction::Hover,
        kind: UiKind::Button,
        show_hover: true,
    };
    assert_eq!(cursor_hint(&Some(pointer)), UiCursor::Pointer);
    let text = ActionTarget { id: 1, event: UiAction::LClick, kind: UiKind::Input, show_hover: true };
    assert_eq!(cursor_hint(&Some(text)), UiCursor::Text);
    let plain = ActionTarget {
        id: 1,
        event: UiAction::Hover,
        kind: UiKind::Text,
        show_hover: false,
    };
    assert_eq!(cursor_hint(&Some(plain)), UiCursor::Standard);
    let idle = ActionTarget {
        id: 1,
        event: UiAction::RClick,
        kind: UiKind::Button,
        show_hover: true,
    };
    assert_eq!(cursor_hint(&Some(idle)), UiCursor::Standard);
}

#[test]
fn hover_needs_token_and_bounds() {
    let mut root = UiRoot::new(800, 600);
    root.add_child(UiElement::Button(button_at(1, 10, 10, 100, 30)));
    let t = root.update(frame((20, 20), UiMouseAction::Idle, UiMouseAction::Idle));
    let t = t.expect("hover claims the token");
    assert_eq!(t.event, UiAction::Hover);
    assert_eq!(event_of(&root.children[0]), UiAction::Hover);
    let t2 = root.update(frame((500, 20), UiMouseAction::Idle, UiMouseAction::Idle));
    assert!(t2.is_none());
    assert_eq!(event_of(&root.children[0]), UiAction::Idle);
}

#[test]
fn well_formedness_is_checkable() {
    let mut root = UiRoot::new(800, 600);
    root.add_child(UiElement::Button(button_at(1, 10, 10, 100, 30)));
    assert!(root.is_well_formed());
}

fn count_holding(e: &UiElement) -> usize {
    let own = match e {
        UiElement::Container(b) => b.is_holding() as usize,
        UiElement::Text(t) => t.is_holding() as usize,
        UiElement::Button(t) => t.is_holding() as usize,
        UiElement::Input(t) => t.is_holding() as usize,
        UiElement::Radio(t) => t.is_holding() as usize,
    };
    match e {
        UiElement::Container(b) => own + b.children.iter().map(count_holding).sum::<usize>(),
        _ => own,
    }
}

#[test]
fn at_most_one_node_captures_the_pointer() {
    let mut root = UiRoot::new(800, 600);
    let mut outer = UiBox::new(UiBoxParams {
        id: 1,
        pos_size: UiRect::from_px(0, 0, 400, 400),
        draggable: true,
        ..Default::default()
    });
    outer.add_child(UiElement::Button(button_at(2, 10, 10, 100, 30)));
    root.add_child(UiElement::Container(outer));
    root.add_child(UiElement::Button(button_at(3, 10, 10, 100, 30)));
    root.update(frame((20, 20), UiMouseAction::Down, UiMouseAction::Idle));
    let holds: usize = root.children.iter().map(count_holding).sum();
    assert_eq!(holds, 1);
    // a release frame clears every hold, even on nodes that never saw it
    root.update(frame((700, 20), UiMouseAction::Release, UiMouseAction::Idle));
    let holds: usize = root.children.iter().map(count_holding).sum();
    assert_eq!(holds, 0);
}

#[test]
fn theme_and_meta_data_builders() {
    let theme = UiTheme { palette_1: Color { r: 1, g: 2, b: 3, a: 255 }, ..UiTheme::default() };
    let root = UiRoot::new(800, 600).with_theme(theme);
    assert_eq!(root.theme.palette_1, Color { r: 1, g: 2, b: 3, a: 255 });
    let b = button_at(1, 0, 0, 10, 10).with_meta_data(UiMetaData::Integer(7));
    match b.data {
        Some(UiMetaData::Integer(v)) => assert_eq!(v, 7),
        _ => panic!("expected the attached payload"),
    }
}
