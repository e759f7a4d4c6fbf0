use imgui_support::geometry::Rect;

#[test]
fn width_and_height_with_ordered_bounds() {
    let r = Rect::new(10, 40, 30, 0);
    assert_eq!(r.width(), 20);
    assert_eq!(r.height(), 40);
}

#[test]
fn width_and_height_with_reversed_bounds() {
    // The embedded host uses a bottom-up convention: top above bottom.
    let r = Rect::new(30, 0, 10, 40);
    assert_eq!(r.width(), 20);
    assert_eq!(r.height(), 40);
}

#[test]
fn extents_are_magnitudes_at_extreme_bounds() {
    let r = Rect::new(i32::MIN, i32::MAX, i32::MAX, i32::MIN);
    assert_eq!(r.width(), u32::MAX);
    assert_eq!(r.height(), u32::MAX);
}

#[test]
fn size_reports_width_and_height() {
    let r = Rect::new(100, 500, 400, 200);
    assert_eq!(r.size(), (300, 300));
}

#[test]
fn new_stores_bounds_verbatim() {
    let r = Rect::new(-5, 7, 9, -11);
    assert_eq!(r.left, -5);
    assert_eq!(r.top, 7);
    assert_eq!(r.right, 9);
    assert_eq!(r.bottom, -11);
}
