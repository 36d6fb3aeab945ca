use retained_ui::{point_in_rect, resolve_rect, AbsRect, UiAlign, UiRect, UiSize, COORD_LIMIT};

fn abs(x: i64, y: i64, w: i64, h: i64) -> AbsRect {
    AbsRect { x, y, w, h }
}

#[test]
fn point_in_rect_is_strict_interior() {
    let r = abs(10, 10, 100, 50);
    assert!(point_in_rect(&(11, 11), &r));
    assert!(point_in_rect(&(109, 59), &r));
    assert!(!point_in_rect(&(10, 30), &r));
    assert!(!point_in_rect(&(110, 30), &r));
    assert!(!point_in_rect(&(50, 10), &r));
    assert!(!point_in_rect(&(50, 60), &r));
    assert!(!point_in_rect(&(9, 30), &r));
}

#[test]
fn degenerate_rect_contains_nothing() {
    let zero = abs(10, 10, 0, 0);
    assert!(!point_in_rect(&(10, 10), &zero));
    let negative = abs(10, 10, -5, 20);
    assert!(!point_in_rect(&(11, 15), &negative));
}

#[test]
fn ui_size_accessors() {
    let px = UiSize::Px(42);
    let pct = UiSize::Percent(500);
    assert_eq!(px.value(), 42);
    assert_eq!(pct.value(), 500);
    assert!(px.is_px());
    assert!(!px.is_percent());
    assert!(pct.is_percent());
    assert!(!pct.is_px());
}

#[test]
fn from_px_clamps_into_coordinate_range() {
    let r = UiRect::from_px(i64::MAX, i64::MIN, 10, 10);
    assert_eq!(r.x, UiSize::Px(COORD_LIMIT));
    assert_eq!(r.y, UiSize::Px(-COORD_LIMIT));
    assert_eq!(r.w, UiSize::Px(10));
}

#[test]
fn percent_width_resolves_in_one_frame() {
    // A child at half the parent's width: parent resized from 200 to 400
    // resolves to exactly 200 the same frame.
    let rel = UiRect {
        x: UiSize::Px(0),
        y: UiSize::Px(0),
        w: UiSize::Percent(500),
        h: UiSize::Px(20),
    };
    let prev = abs(0, 0, 100, 20);
    let parent = abs(0, 0, 400, 300);
    let (new_abs, _) = resolve_rect(
        &prev,
        &rel,
        &parent,
        &(200, 0),
        &UiAlign::TopLeft,
        &(0, 0),
        false,
    );
    assert_eq!(new_abs.w, 200);
    assert_eq!(new_abs.h, 20);
}

#[test]
fn pixel_position_is_parent_plus_offset() {
    let rel = UiRect {
        x: UiSize::Px(10),
        y: UiSize::Px(20),
        w: UiSize::Px(30),
        h: UiSize::Px(40),
    };
    let (new_abs, new_rel) = resolve_rect(
        &abs(0, 0, 0, 0),
        &rel,
        &abs(100, 200, 500, 500),
        &(0, 0),
        &UiAlign::TopLeft,
        &(7, 7),
        false,
    );
    assert_eq!(new_abs, abs(110, 220, 30, 40));
    assert_eq!(new_rel, rel);
}

#[test]
fn center_anchor_shifts_by_half_the_resize() {
    let rel = UiRect {
        x: UiSize::Px(50),
        y: UiSize::Px(50),
        w: UiSize::Px(10),
        h: UiSize::Px(10),
    };
    let (new_abs, new_rel) = resolve_rect(
        &abs(0, 0, 10, 10),
        &rel,
        &abs(0, 0, 300, 300),
        &(100, 0),
        &UiAlign::TopCenter,
        &(0, 0),
        false,
    );
    assert_eq!(new_abs.x, 50 + 50);
    assert_eq!(new_rel.x, UiSize::Px(100));
    // y axis of a Top anchor does not move
    assert_eq!(new_abs.y, 50);
    assert_eq!(new_rel.y, UiSize::Px(50));
}

#[test]
fn bottom_right_anchor_shifts_by_full_resize() {
    let rel = UiRect {
        x: UiSize::Px(50),
        y: UiSize::Px(60),
        w: UiSize::Px(10),
        h: UiSize::Px(10),
    };
    let (new_abs, new_rel) = resolve_rect(
        &abs(0, 0, 10, 10),
        &rel,
        &abs(0, 0, 300, 300),
        &(40, 30),
        &UiAlign::BottomRight,
        &(0, 0),
        false,
    );
    assert_eq!(new_abs.x, 90);
    assert_eq!(new_abs.y, 90);
    assert_eq!(new_rel.x, UiSize::Px(90));
    assert_eq!(new_rel.y, UiSize::Px(90));
}

#[test]
fn percent_position_does_not_absorb_resize_into_rel() {
    let rel = UiRect {
        x: UiSize::Percent(100),
        y: UiSize::Px(0),
        w: UiSize::Px(10),
        h: UiSize::Px(10),
    };
    let (new_abs, new_rel) = resolve_rect(
        &abs(0, 0, 10, 10),
        &rel,
        &abs(0, 0, 400, 300),
        &(100, 0),
        &UiAlign::TopRight,
        &(0, 0),
        false,
    );
    // x = parent.x + 10% of 400 + full delta
    assert_eq!(new_abs.x, 40 + 100);
    // a percent offset stays as it was
    assert_eq!(new_rel.x, UiSize::Percent(100));
}

#[test]
fn dragging_moves_by_pointer_delta() {
    let rel = UiRect {
        x: UiSize::Px(10),
        y: UiSize::Px(10),
        w: UiSize::Px(30),
        h: UiSize::Px(30),
    };
    let (new_abs, new_rel) = resolve_rect(
        &abs(10, 10, 30, 30),
        &rel,
        &abs(0, 0, 300, 300),
        &(0, 0),
        &UiAlign::TopLeft,
        &(5, -3),
        true,
    );
    assert_eq!(new_abs.x, 15);
    assert_eq!(new_abs.y, 7);
    assert_eq!(new_rel.x, UiSize::Px(15));
    assert_eq!(new_rel.y, UiSize::Px(7));
}

#[test]
fn dragging_with_zero_delta_changes_nothing() {
    let rel = UiRect {
        x: UiSize::Px(10),
        y: UiSize::Percent(250),
        w: UiSize::Px(30),
        h: UiSize::Percent(100),
    };
    let parent = abs(0, 0, 300, 300);
    let start = abs(10, 75, 30, 30);
    let mut current = start;
    for _ in 0..10 {
        let (next_abs, next_rel) = resolve_rect(
            &current,
            &rel,
            &parent,
            &(0, 0),
            &UiAlign::TopLeft,
            &(0, 0),
            true,
        );
        assert_eq!(next_rel, rel);
        assert_eq!(next_abs, current);
        current = next_abs;
    }
    assert_eq!(current, start);
}

#[test]
fn percent_drag_accumulates_fraction_of_parent() {
    let rel = UiRect {
        x: UiSize::Percent(100),
        y: UiSize::Px(0),
        w: UiSize::Px(10),
        h: UiSize::Px(10),
    };
    let (_, new_rel) = resolve_rect(
        &abs(40, 0, 10, 10),
        &rel,
        &abs(0, 0, 400, 300),
        &(0, 0),
        &UiAlign::TopLeft,
        &(40, 0),
        true,
    );
    // 40 px of a 400 px parent is 100 per-mille
    assert_eq!(new_rel.x, UiSize::Percent(200));
}

#[test]
fn percent_drag_over_zero_parent_keeps_offset() {
    let rel = UiRect {
        x: UiSize::Percent(100),
        y: UiSize::Px(0),
        w: UiSize::Px(10),
        h: UiSize::Px(10),
    };
    let (new_abs, new_rel) = resolve_rect(
        &abs(40, 0, 10, 10),
        &rel,
        &abs(0, 0, 0, 300),
        &(0, 0),
        &UiAlign::TopLeft,
        &(40, 0),
        true,
    );
    assert_eq!(new_rel.x, UiSize::Percent(100));
    assert_eq!(new_abs.x, 80);
}

#[test]
fn offset_moves_an_axis_in_its_own_unit() {
    assert_eq!(UiSize::Px(40).offset(5), UiSize::Px(45));
    assert_eq!(UiSize::Px(40).offset(-50), UiSize::Px(-10));
    assert_eq!(UiSize::Percent(500).offset(250), UiSize::Percent(750));
    assert_eq!(UiSize::Percent(500).offset(-600), UiSize::Percent(-100));
    // each unit clamps into its own range
    assert_eq!(UiSize::Px(COORD_LIMIT).offset(1), UiSize::Px(COORD_LIMIT));
    assert_eq!(UiSize::Percent(1_000_000).offset(1), UiSize::Percent(1_000_000));
}
