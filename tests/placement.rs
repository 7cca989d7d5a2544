use clippy_assistant::layout::{place_panel, plan_wrap, tail_points, Rect, Side, MIN_USABLE_WIDTH, PANEL_PADDING};

fn screen() -> Rect {
    Rect::new(0, 0, 1024, 768)
}

#[test]
fn scenario_anchor_left_placement() {
    let anchor = Rect::new(700, 500, 750, 560);
    let plan = plan_wrap(&anchor, &screen(), 20, 1650, true);
    assert_eq!(plan.side, Side::Left);
    assert_eq!(plan.wrap_width, 660);
    let p = place_panel(&anchor, &screen(), plan.side, plan.wrap_width, 19, 120, 20);
    assert_eq!(p.rect.max_x, 680);
    assert_eq!(p.side, Side::Left);
    assert!(p.clear_of_anchor);
    assert!(!p.rect.overlaps(&anchor));
}

#[test]
fn equal_space_prefers_left() {
    let anchor = Rect::new(462, 300, 562, 400);
    let plan = plan_wrap(&anchor, &screen(), 10, 500, true);
    assert_eq!(plan.side, Side::Left);
    let plan2 = plan_wrap(&anchor, &screen(), 10, 500, false);
    assert_eq!(plan2.side, Side::Right);
}

#[test]
fn non_viable_left_goes_right() {
    let anchor = Rect::new(50, 300, 100, 360);
    let plan = plan_wrap(&anchor, &screen(), 20, 2000, true);
    assert_eq!(plan.side, Side::Right);
    assert_eq!(plan.wrap_width, 1024 - 100 - 20 - 20);
}

#[test]
fn neither_side_viable_takes_the_wider() {
    let small = Rect::new(0, 0, 300, 200);
    let anchor = Rect::new(100, 50, 170, 150);
    let plan = plan_wrap(&anchor, &small, 10, 500, true);
    assert_eq!(plan.side, Side::Right);
    assert_eq!(plan.wrap_width, MIN_USABLE_WIDTH);
}

#[test]
fn wrap_width_capped_by_target() {
    let anchor = Rect::new(700, 500, 750, 560);
    let plan = plan_wrap(&anchor, &screen(), 20, 300, true);
    assert_eq!(plan.wrap_width, 300);
}

#[test]
fn panel_is_clamped_into_screen_vertically() {
    let anchor = Rect::new(700, 0, 750, 40);
    let p = place_panel(&anchor, &screen(), Side::Left, 200, 100, 120, 20);
    assert_eq!(p.rect.min_y, 0);
    assert_eq!(p.rect.max_y, 100 + 2 * PANEL_PADDING);
    let low = Rect::new(700, 740, 750, 768);
    let q = place_panel(&low, &screen(), Side::Right, 200, 500, 120, 20);
    assert_eq!(q.rect.max_y, 768);
    assert_eq!(q.rect.max_y - q.rect.min_y, 120 + 2 * PANEL_PADDING);
    assert_eq!(q.rect.min_x, 770);
}

#[test]
fn panel_is_centred_on_anchor() {
    let anchor = Rect::new(500, 300, 550, 400);
    let p = place_panel(&anchor, &screen(), Side::Right, 150, 26, 120, 20);
    assert_eq!(p.rect.min_y, 325);
    assert_eq!(p.rect.max_y, 375);
    assert_eq!(p.rect.max_x - p.rect.min_x, 150 + 2 * PANEL_PADDING);
}

#[test]
fn overlap_with_negative_gap_is_reported() {
    let anchor = Rect::new(500, 300, 550, 400);
    let p = place_panel(&anchor, &screen(), Side::Left, 150, 20, 120, -30);
    assert_eq!(p.side, Side::Right);
    assert!(!p.clear_of_anchor);
}

#[test]
fn tail_points_face_the_anchor() {
    let panel = Rect::new(10, 20, 110, 60);
    assert_eq!(tail_points(&panel, Side::Left), [(110, 40), (117, 40), (120, 45)]);
    assert_eq!(tail_points(&panel, Side::Right), [(10, 40), (3, 40), (0, 45)]);
}
