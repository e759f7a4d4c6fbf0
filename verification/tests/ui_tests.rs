use imgui_support::geometry::Rect;
use imgui_support::ui::{
    positioning_mode, window_rect, Decoration, FontStyles, Layer, PositioningMode, ResizingLimits,
};

#[test]
fn decoration_codes_match_the_host() {
    assert_eq!(Decoration::Bare.code(), 0);
    assert_eq!(Decoration::RoundRectangle.code(), 1);
    assert_eq!(Decoration::SelfDecorated.code(), 2);
    assert_eq!(Decoration::SelfDecoratedResizable.code(), 3);
}

#[test]
fn layer_codes_match_the_host() {
    assert_eq!(Layer::FlightOverlay.code(), 0);
    assert_eq!(Layer::FloatingWindows.code(), 1);
    assert_eq!(Layer::Modal.code(), 2);
    assert_eq!(Layer::GrowlNotifications.code(), 3);
}

#[test]
fn positioning_mode_codes_match_the_host() {
    assert_eq!(PositioningMode::Free.code(), 0);
    assert_eq!(PositioningMode::CenterOnMonitor.code(), 1);
    assert_eq!(PositioningMode::FullScreenOnMonitor.code(), 2);
    assert_eq!(PositioningMode::FullScreenOnAllMonitors.code(), 3);
    assert_eq!(PositioningMode::PopOut.code(), 4);
    assert_eq!(PositioningMode::VR.code(), 5);
}

#[test]
fn positioning_mode_prefers_vr_over_pop_out() {
    assert_eq!(positioning_mode(true, true), PositioningMode::VR);
    assert_eq!(positioning_mode(true, false), PositioningMode::VR);
    assert_eq!(positioning_mode(false, true), PositioningMode::PopOut);
    assert_eq!(positioning_mode(false, false), PositioningMode::Free);
}

#[test]
fn resizing_limits_keep_their_bounds() {
    let r = ResizingLimits::new(100, 50, 800, 600);
    assert_eq!(r.min_width, 100);
    assert_eq!(r.min_height, 50);
    assert_eq!(r.max_width, 800);
    assert_eq!(r.max_height, 600);
}

#[test]
fn font_styles_default_to_regular_only() {
    let s = FontStyles::default();
    assert!(s.regular);
    assert!(!s.bold);
    assert!(!s.italic);
    assert!(!s.bold_italic);
}

#[test]
fn window_rect_places_inside_bottom_up_bounds() {
    let bounds = Rect::new(0, 1080, 1920, 0);
    let r = window_rect(&bounds, 100, 200, 640, 480).unwrap();
    assert_eq!(r, Rect::new(100, 880, 740, 400));
}

#[test]
fn window_rect_reports_out_of_range_placement() {
    let bounds = Rect::new(i32::MAX - 10, 0, i32::MAX, 0);
    assert_eq!(window_rect(&bounds, 100, 0, 100, 100), None);
}
