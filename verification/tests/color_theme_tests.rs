use retained_ui::{adjust_alpha, contrast_color, mix_colors, Color, UiKey, UiTheme, key_char};

#[test]
fn contrast_color_black_on_bright_white_on_dark() {
    let white = Color { r: 255, g: 255, b: 255, a: 255 };
    let black = Color { r: 0, g: 0, b: 0, a: 255 };
    assert_eq!(contrast_color(&white), black);
    assert_eq!(contrast_color(&black), white);
    // 299 r + 587 g + 114 b against 185997, just under and just over
    let just_dark = Color { r: 186, g: 186, b: 185, a: 255 };
    assert_eq!(299 * 186 + 587 * 186 + 114 * 185, 185886);
    assert_eq!(contrast_color(&just_dark), white);
    let just_bright = Color { r: 186, g: 186, b: 187, a: 255 };
    assert_eq!(299 * 186 + 587 * 186 + 114 * 187, 186114);
    assert_eq!(contrast_color(&just_bright), black);
}

#[test]
fn mix_colors_endpoints_and_midpoint() {
    let c1 = Color { r: 10, g: 20, b: 30, a: 255 };
    let c2 = Color { r: 110, g: 220, b: 40, a: 55 };
    assert_eq!(mix_colors(&c1, &c2, 0), c1);
    assert_eq!(mix_colors(&c1, &c2, -5), c1);
    assert_eq!(mix_colors(&c1, &c2, 1000), c2);
    assert_eq!(mix_colors(&c1, &c2, 1500), c2);
    let mid = mix_colors(&c1, &c2, 500);
    assert_eq!(mid, Color { r: 60, g: 120, b: 35, a: 155 });
    // truncating interpolation: (750*10 + 250*110)/1000 = 35
    let quarter = mix_colors(&c1, &c2, 250);
    assert_eq!(quarter.r, 35);
}

#[test]
fn adjust_alpha_replaces_only_alpha() {
    let c = Color { r: 1, g: 2, b: 3, a: 4 };
    assert_eq!(adjust_alpha(&c, 200), Color { r: 1, g: 2, b: 3, a: 200 });
}

#[test]
fn color_from_hex_splits_channels() {
    let c = Color::from_hex(0xe1e5ee);
    assert_eq!((c.r, c.g, c.b, c.a), (0xe1, 0xe5, 0xee, 255));
}

#[test]
fn default_theme_palette() {
    let t = UiTheme::default();
    assert_eq!(t.font_size, 18);
    assert_eq!(t.char_width, 9);
    assert_eq!((t.palette_1.r, t.palette_1.g, t.palette_1.b), (0xe1, 0xe5, 0xee));
    assert_eq!((t.palette_4.r, t.palette_4.g, t.palette_4.b), (0x2a, 0x32, 0x4b));
    assert_eq!(t.shadow_color, Color { r: 0, g: 0, b: 0, a: 120 });
}

#[test]
fn palette_tint_saturates() {
    let t = UiTheme::default();
    let up = t.palette_tint(1, 100, 0, -300);
    assert_eq!(up.r, 255);
    assert_eq!(up.g, 0xe5);
    assert_eq!(up.b, 0);
    // an index outside the palette gives plain black, untinted
    let off_range = t.palette_tint(9, 5, 5, 5);
    assert_eq!(off_range, Color { r: 0, g: 0, b: 0, a: 255 });
}

#[test]
fn text_width_is_monospace_advance() {
    let t = UiTheme::default();
    assert_eq!(t.text_width(0), 0);
    assert_eq!(t.text_width(6), 54);
    assert_eq!(t.text_height(), 18);
}

#[test]
fn key_char_table_letters_and_digits() {
    assert_eq!(key_char(&UiKey::H, false), Some('h'));
    assert_eq!(key_char(&UiKey::H, true), Some('H'));
    assert_eq!(key_char(&UiKey::Key1, false), Some('1'));
    assert_eq!(key_char(&UiKey::Key1, true), Some('!'));
    assert_eq!(key_char(&UiKey::Key2, true), Some('@'));
    assert_eq!(key_char(&UiKey::Space, true), Some(' '));
    assert_eq!(key_char(&UiKey::Apostrophe, false), Some('\''));
    assert_eq!(key_char(&UiKey::Apostrophe, true), Some('"'));
    assert_eq!(key_char(&UiKey::GraveAccent, true), Some('~'));
    assert_eq!(key_char(&UiKey::Backslash, true), Some('|'));
}

#[test]
fn key_char_numpad_ignores_shift() {
    assert_eq!(key_char(&UiKey::Kp7, false), Some('7'));
    assert_eq!(key_char(&UiKey::Kp7, true), Some('7'));
    assert_eq!(key_char(&UiKey::KpAdd, true), Some('+'));
    assert_eq!(key_char(&UiKey::KpDecimal, true), Some('.'));
}

#[test]
fn key_char_unknown_key_gives_nothing() {
    assert_eq!(key_char(&UiKey::Other, false), None);
    assert_eq!(key_char(&UiKey::Other, true), None);
}
