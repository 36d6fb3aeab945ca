use retained_ui::{
    FrameInput, UiAction, UiElement, UiInput, UiInputParams, UiKey, UiMouseAction, UiRadio,
    UiRadioParams, UiRect, UiRoot,
};

fn frame(mouse: (i64, i64), l: UiMouseAction) -> FrameInput {
    FrameInput {
        mouse_x: mouse.0,
        mouse_y: mouse.1,
        l_mouse: l,
        r_mouse: UiMouseAction::Idle,
        keys_pressed: Vec::new(),
        shift_down: false,
        backspace_pressed: false,
        backspace_down: false,
        time_delta_ms: 16,
        screen_w: 800,
        screen_h: 600,
    }
}

fn input_root() -> UiRoot {
    let mut root = UiRoot::new(800, 600);
    let field = UiInput::new(
        1,
        UiInputParams { pos_size: UiRect::from_px(10, 10, 200, 30), ..Default::default() },
    );
    root.add_child(UiElement::Input(field));
    root
}

fn the_input(root: &UiRoot) -> &UiInput {
    match &root.children[0] {
        UiElement::Input(i) => i,
        _ => unreachable!(),
    }
}

fn activate(root: &mut UiRoot) {
    root.update(frame((20, 20), UiMouseAction::Down));
    root.update(frame((20, 20), UiMouseAction::Release));
    assert!(the_input(root).is_active);
}

#[test]
fn text_editing_scenario() {
    let mut root = input_root();
    assert!(!the_input(&root).is_active);
    assert!(the_input(&root).input.is_empty());

    // a click-and-release inside the field focuses it
    activate(&mut root);

    // type 'H' (shift held), then 'i'
    let mut f = frame((20, 20), UiMouseAction::Idle);
    f.keys_pressed = vec![UiKey::H];
    f.shift_down = true;
    root.update(f);
    let mut f = frame((20, 20), UiMouseAction::Idle);
    f.keys_pressed = vec![UiKey::I];
    root.update(f);
    assert_eq!(the_input(&root).input, vec!['H', 'i']);

    // pad the buffer so repeats have something to eat
    let mut f = frame((20, 20), UiMouseAction::Idle);
    f.keys_pressed = vec![UiKey::A, UiKey::B, UiKey::C];
    root.update(f);
    assert_eq!(the_input(&root).input.len(), 5);

    // press backspace, then hold it past the first delay and two repeats
    let mut f = frame((20, 20), UiMouseAction::Idle);
    f.backspace_pressed = true;
    f.backspace_down = true;
    f.time_delta_ms = 100;
    root.update(f);
    assert_eq!(the_input(&root).input.len(), 4);
    for _ in 0..7 {
        let mut f = frame((20, 20), UiMouseAction::Idle);
        f.backspace_down = true;
        f.time_delta_ms = 100;
        root.update(f);
    }
    // press + 700 ms held: one immediate delete, one after the 500 ms
    // first delay, one more after the 60 ms repeat delay
    assert!(the_input(&root).input.len() <= 2);

    // click outside: unfocused, remaining buffer kept
    let remaining = the_input(&root).input.clone();
    root.update(frame((500, 500), UiMouseAction::Down));
    assert!(!the_input(&root).is_active);
    assert_eq!(the_input(&root).input, remaining);
}

#[test]
fn click_release_on_a_focused_field_keeps_focus() {
    let mut root = input_root();
    activate(&mut root);
    // another click-and-release on the field leaves it focused; only a
    // click outside clears focus
    root.update(frame((20, 20), UiMouseAction::Down));
    root.update(frame((20, 20), UiMouseAction::Release));
    assert!(the_input(&root).is_active);
    root.update(frame((500, 500), UiMouseAction::Down));
    assert!(!the_input(&root).is_active);
}

#[test]
fn keys_do_nothing_while_unfocused() {
    let mut root = input_root();
    let mut f = frame((400, 400), UiMouseAction::Idle);
    f.keys_pressed = vec![UiKey::A, UiKey::B];
    root.update(f);
    assert!(the_input(&root).input.is_empty());
}

#[test]
fn backspace_first_press_has_long_delay() {
    let mut root = input_root();
    activate(&mut root);
    let mut f = frame((20, 20), UiMouseAction::Idle);
    f.keys_pressed = vec![UiKey::A, UiKey::B, UiKey::C, UiKey::D];
    root.update(f);
    let mut f = frame((20, 20), UiMouseAction::Idle);
    f.backspace_pressed = true;
    f.backspace_down = true;
    f.time_delta_ms = 100;
    root.update(f);
    assert_eq!(the_input(&root).input.len(), 3);
    // 400 ms of holding stays inside the 500 ms first delay: no repeat yet
    for _ in 0..4 {
        let mut f = frame((20, 20), UiMouseAction::Idle);
        f.backspace_down = true;
        f.time_delta_ms = 100;
        root.update(f);
    }
    assert_eq!(the_input(&root).input.len(), 3);
    // the next 100 ms crosses it: one repeat fires
    let mut f = frame((20, 20), UiMouseAction::Idle);
    f.backspace_down = true;
    f.time_delta_ms = 100;
    root.update(f);
    assert_eq!(the_input(&root).input.len(), 2);
}

#[test]
fn caret_blinks_every_five_frames_at_100ms() {
    let mut root = input_root();
    activate(&mut root);
    assert!(!the_input(&root).show_blink);
    let mut toggles = Vec::new();
    let mut shown = false;
    for n in 1..=20 {
        let mut f = frame((20, 20), UiMouseAction::Idle);
        f.time_delta_ms = 100;
        root.update(f);
        let now = the_input(&root).show_blink;
        if now != shown {
            toggles.push(n);
            shown = now;
        }
    }
    assert_eq!(toggles, vec![5, 10, 15, 20]);
}

#[test]
fn losing_focus_hides_the_caret() {
    let mut root = input_root();
    activate(&mut root);
    for _ in 0..5 {
        let mut f = frame((20, 20), UiMouseAction::Idle);
        f.time_delta_ms = 100;
        root.update(f);
    }
    assert!(the_input(&root).show_blink);
    root.update(frame((500, 500), UiMouseAction::Down));
    assert!(!the_input(&root).show_blink);
    assert_eq!(the_input(&root).blink_counter, 0);
}

#[test]
fn clear_empties_the_buffer() {
    let mut root = input_root();
    activate(&mut root);
    let mut f = frame((20, 20), UiMouseAction::Idle);
    f.keys_pressed = vec![UiKey::A];
    root.update(f);
    match &mut root.children[0] {
        UiElement::Input(i) => {
            assert!(!i.input.is_empty());
            i.clear();
            assert!(i.input.is_empty());
        },
        _ => unreachable!(),
    }
}

#[test]
fn radio_toggles_on_release_only() {
    let mut root = UiRoot::new(800, 600);
    let radio = UiRadio::new(
        3,
        UiRadioParams { pos_size: UiRect::from_px(10, 10, 100, 30), ..Default::default() },
    );
    root.add_child(UiElement::Radio(radio));
    let checked = |root: &UiRoot| match &root.children[0] {
        UiElement::Radio(r) => r.checked,
        _ => unreachable!(),
    };
    assert!(!checked(&root));
    root.update(frame((20, 20), UiMouseAction::Down));
    assert!(!checked(&root));
    root.update(frame((20, 20), UiMouseAction::Release));
    assert!(checked(&root));
    root.update(frame((20, 20), UiMouseAction::Down));
    root.update(frame((20, 20), UiMouseAction::Release));
    assert!(!checked(&root));
}

#[test]
fn held_backspace_keeps_pace_at_60ms_frames() {
    let mut root = input_root();
    activate(&mut root);
    let mut f = frame((20, 20), UiMouseAction::Idle);
    f.keys_pressed = vec![UiKey::A, UiKey::B, UiKey::C, UiKey::D, UiKey::E, UiKey::F];
    root.update(f);
    assert_eq!(the_input(&root).input.len(), 6);
    // press, then hold for 12 frames of 60 ms (720 ms)
    let mut f = frame((20, 20), UiMouseAction::Idle);
    f.backspace_pressed = true;
    f.backspace_down = true;
    f.time_delta_ms = 60;
    root.update(f);
    assert_eq!(the_input(&root).input.len(), 5);
    for _ in 0..12 {
        let mut f = frame((20, 20), UiMouseAction::Idle);
        f.backspace_down = true;
        f.time_delta_ms = 60;
        root.update(f);
    }
    // the 500 ms first delay expires within the first nine frames, and
    // every 60 ms frame after that deletes one more
    assert_eq!(the_input(&root).input.len(), 1);
}
