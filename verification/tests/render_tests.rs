use retained_ui::{
    Color, DrawCmd, FrameInput, UiBox, UiBoxParams, UiButton, UiButtonParams, UiElement, UiInput,
    UiInputParams, UiKey, UiMouseAction, UiRect, UiRoot, UiText, UiTextParams, str_to_chars,
};

fn idle_frame() -> FrameInput {
    FrameInput {
        mouse_x: 0,
        mouse_y: 0,
        l_mouse: UiMouseAction::Idle,
        r_mouse: UiMouseAction::Idle,
        keys_pressed: Vec::new(),
        shift_down: false,
        backspace_pressed: false,
        backspace_down: false,
        time_delta_ms: 16,
        screen_w: 800,
        screen_h: 600,
    }
}

#[test]
fn str_to_chars_preserves_order() {
    assert_eq!(str_to_chars("héllo"), vec!['h', 'é', 'l', 'l', 'o']);
    assert_eq!(str_to_chars(""), Vec::<char>::new());
}

#[test]
fn box_renders_shadow_then_body_then_children() {
    let mut root = UiRoot::new(800, 600);
    let mut b = UiBox::new(UiBoxParams {
        id: 1,
        pos_size: UiRect::from_px(100, 100, 50, 40),
        ..Default::default()
    });
    b.add_child(UiElement::Text(UiText::new(
        2,
        UiTextParams {
            pos_size: UiRect::from_px(5, 5, 10, 10),
            text: "hi".to_owned(),
            ..Default::default()
        },
    )));
    root.add_child(UiElement::Container(b));
    root.update(idle_frame());
    let cmds = root.render();
    assert_eq!(cmds.len(), 3);
    match &cmds[0] {
        DrawCmd::Rect { x, y, w, h, color } => {
            assert_eq!((*x, *y, *w, *h), (99, 99, 54, 46));
            assert_eq!(*color, Color { r: 0, g: 0, b: 0, a: 120 });
        },
        other => panic!("expected the shadow rectangle, got {:?}", other),
    }
    match &cmds[1] {
        DrawCmd::Rect { x, y, w, h, .. } => {
            assert_eq!((*x, *y, *w, *h), (100, 100, 50, 40));
        },
        other => panic!("expected the body rectangle, got {:?}", other),
    }
    match &cmds[2] {
        DrawCmd::Text { chars, x, y, .. } => {
            assert_eq!(chars, &vec!['h', 'i']);
            // label origin plus half a default line below the top
            assert_eq!((*x, *y), (105, 105 + 9));
        },
        other => panic!("expected the label, got {:?}", other),
    }
}

#[test]
fn button_renders_pill_and_centered_label() {
    let mut root = UiRoot::new(800, 600);
    root.add_child(UiElement::Button(UiButton::new(
        1,
        UiButtonParams {
            pos_size: UiRect::from_px(10, 20, 100, 30),
            text: "Go".to_owned(),
            ..Default::default()
        },
    )));
    root.update(idle_frame());
    let cmds = root.render();
    assert_eq!(cmds.len(), 8);
    match &cmds[0] {
        DrawCmd::Poly { x, y, radius, sides, .. } => {
            assert_eq!((*x, *y, *radius, *sides), (25, 35, 15, 36));
        },
        other => panic!("expected the left pill cap, got {:?}", other),
    }
    match &cmds[4] {
        DrawCmd::Rect { x, y, w, h, .. } => {
            assert_eq!((*x, *y, *w, *h), (25, 20, 70, 30));
        },
        other => panic!("expected the pill body, got {:?}", other),
    }
    match &cmds[7] {
        DrawCmd::Text { chars, x, y, .. } => {
            assert_eq!(chars, &vec!['G', 'o']);
            // "Go" is 2 * 9 px wide on the default metric
            assert_eq!(*x, 10 + (100 - 18) / 2);
            assert_eq!(*y, 20 + 18 + (30 - 18) / 2);
        },
        other => panic!("expected the label, got {:?}", other),
    }
}

#[test]
fn input_renders_placeholder_when_idle_and_empty() {
    let mut root = UiRoot::new(800, 600);
    root.add_child(UiElement::Input(UiInput::new(
        1,
        UiInputParams {
            pos_size: UiRect::from_px(10, 10, 200, 30),
            placeholder: "Search".to_owned(),
            ..Default::default()
        },
    )));
    root.update(idle_frame());
    let cmds = root.render();
    // body, placeholder text, border — no blinker
    assert_eq!(cmds.len(), 3);
    match &cmds[1] {
        DrawCmd::Text { chars, x, y, color, .. } => {
            assert_eq!(chars, &str_to_chars("Search"));
            assert_eq!((*x, *y), (13, 10 + 30 - 10));
            // dimmed contrast color
            assert_eq!(color.a, 153);
        },
        other => panic!("expected the placeholder, got {:?}", other),
    }
    match &cmds[2] {
        DrawCmd::RectLines { x, y, w, h, thickness, .. } => {
            assert_eq!((*x, *y, *w, *h, *thickness), (10, 10, 200, 30, 2));
        },
        other => panic!("expected the border, got {:?}", other),
    }
}

#[test]
fn focused_input_shows_buffer_and_blinker() {
    let mut root = UiRoot::new(800, 600);
    root.add_child(UiElement::Input(UiInput::new(
        1,
        UiInputParams { pos_size: UiRect::from_px(10, 10, 200, 30), ..Default::default() },
    )));
    root.update(idle_frame());
    // focus it, then wait half a second so the caret shows
    let mut f = idle_frame();
    f.mouse_x = 20;
    f.mouse_y = 20;
    f.l_mouse = UiMouseAction::Down;
    root.update(f);
    let mut f = idle_frame();
    f.mouse_x = 20;
    f.mouse_y = 20;
    f.l_mouse = UiMouseAction::Release;
    root.update(f);
    let mut f = idle_frame();
    f.mouse_x = 20;
    f.mouse_y = 20;
    f.time_delta_ms = 600;
    root.update(f);
    let cmds = root.render();
    // body, buffer text (empty), blinker, border
    assert_eq!(cmds.len(), 4);
    match &cmds[1] {
        DrawCmd::Text { chars, .. } => assert!(chars.is_empty()),
        other => panic!("expected the empty buffer text, got {:?}", other),
    }
    match &cmds[2] {
        DrawCmd::Line { x1, y1, y2, thickness, .. } => {
            // empty buffer: the caret sits just right of the text start
            assert_eq!(*x1, 10 + 0 + 3);
            assert_eq!((*y1, *y2), (12, 12 + 30 - 4));
            assert_eq!(*thickness, 2);
        },
        other => panic!("expected the blinker, got {:?}", other),
    }
}

#[test]
fn later_siblings_render_after_earlier_ones() {
    let mut root = UiRoot::new(800, 600);
    root.add_child(UiElement::Text(UiText::new(
        1,
        UiTextParams { text: "a".to_owned(), ..Default::default() },
    )));
    root.add_child(UiElement::Text(UiText::new(
        2,
        UiTextParams { text: "b".to_owned(), ..Default::default() },
    )));
    root.update(idle_frame());
    let cmds = root.render();
    assert_eq!(cmds.len(), 2);
    match (&cmds[0], &cmds[1]) {
        (DrawCmd::Text { chars: c0, .. }, DrawCmd::Text { chars: c1, .. }) => {
            assert_eq!(c0, &vec!['a']);
            assert_eq!(c1, &vec!['b']);
        },
        other => panic!("expected two labels, got {:?}", other),
    }
}

#[test]
fn overflowing_input_right_aligns_text_and_caret() {
    let mut root = UiRoot::new(800, 600);
    root.add_child(UiElement::Input(UiInput::new(
        1,
        UiInputParams { pos_size: UiRect::from_px(10, 10, 90, 30), ..Default::default() },
    )));
    root.update(idle_frame());
    // focus the field, type 11 characters (99 px on the default metric,
    // wider than the 90 px field), and let the caret blink on
    let mut f = idle_frame();
    f.mouse_x = 20;
    f.mouse_y = 20;
    f.l_mouse = UiMouseAction::Down;
    root.update(f);
    let mut f = idle_frame();
    f.mouse_x = 20;
    f.mouse_y = 20;
    f.l_mouse = UiMouseAction::Release;
    root.update(f);
    let mut f = idle_frame();
    f.mouse_x = 20;
    f.mouse_y = 20;
    f.keys_pressed = vec![
        UiKey::A,
        UiKey::B,
        UiKey::C,
        UiKey::D,
        UiKey::E,
        UiKey::F,
        UiKey::G,
        UiKey::H,
        UiKey::I,
        UiKey::J,
        UiKey::K,
    ];
    f.time_delta_ms = 600;
    root.update(f);
    let cmds = root.render();
    assert_eq!(cmds.len(), 4);
    match &cmds[1] {
        DrawCmd::Text { chars, x, .. } => {
            assert_eq!(chars.len(), 11);
            // scrolled left so the right end stays visible
            assert_eq!(*x, 10 + 90 - 99 - 3);
        },
        other => panic!("expected the buffer text, got {:?}", other),
    }
    match &cmds[2] {
        DrawCmd::Line { x1, .. } => {
            // the caret pins to the field's right edge
            assert_eq!(*x1, 10 + 90 - 3);
        },
        other => panic!("expected the blinker, got {:?}", other),
    }
}
