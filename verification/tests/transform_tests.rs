use imgui_support::geometry::Rect;
use imgui_support::linalg::Mat4;
use imgui_support::rational::Rational;
use imgui_support::transform::{
    device_to_logical, direct_scissor, logical_to_device_point, logical_to_panel,
    normalize_corners, ortho_viewport, panel_to_screen, scene_scissor, screen_to_panel_ortho,
    ClipRect, ScissorRect, Viewport,
};

fn rat(v: i64) -> Rational {
    Rational::from_int(v)
}

#[test]
fn logical_to_device_example() {
    // Logical (10, 10) at scale 1.0 with a 600-pixel framebuffer lands
    // on device (10, 590).
    let p = logical_to_device_point(rat(10), rat(10), rat(1), rat(1), rat(600)).unwrap();
    assert_eq!(p, (10, 590));
}

#[test]
fn logical_to_device_is_deterministic() {
    let a = logical_to_device_point(rat(10), rat(10), rat(1), rat(1), rat(600));
    let b = logical_to_device_point(rat(10), rat(10), rat(1), rat(1), rat(600));
    assert_eq!(a, b);
}

#[test]
fn logical_to_device_scales_fractionally() {
    // Scale 3/2 on logical (7, 5) with framebuffer height 100:
    // x = 10 (truncated from 10.5), y = 100 - 7.5 truncated to 92.
    let half3 = Rational::new(3, 2).unwrap();
    let p = logical_to_device_point(rat(7), rat(5), half3, half3, rat(100)).unwrap();
    assert_eq!(p, (10, 92));
}

#[test]
fn device_to_logical_inside_panel() {
    let panel = Rect::new(100, 500, 400, 200);
    assert_eq!(device_to_logical(&panel, 150, 450), Some((50, 50)));
}

#[test]
fn device_to_logical_outside_right_edge() {
    let panel = Rect::new(100, 500, 400, 200);
    assert_eq!(device_to_logical(&panel, 450, 450), None);
}

#[test]
fn device_to_logical_edges_are_inside() {
    let panel = Rect::new(100, 500, 400, 200);
    assert_eq!(device_to_logical(&panel, 100, 500), Some((0, 0)));
    assert_eq!(device_to_logical(&panel, 400, 200), Some((300, 300)));
    assert_eq!(device_to_logical(&panel, 99, 450), None);
    assert_eq!(device_to_logical(&panel, 150, 501), None);
}

#[test]
fn logical_to_panel_translates_and_flips() {
    let p = logical_to_panel(20, 220, rat(100), rat(50));
    assert_eq!(p, (120, 170));
}

#[test]
fn normalize_corners_orders_swapped_corners() {
    let s = normalize_corners((120, 170), (20, 220));
    assert_eq!(s, ScissorRect { left: 20, bottom: 170, width: 100, height: 50 });
    let t = normalize_corners((20, 220), (120, 170));
    assert_eq!(s, t);
}

#[test]
fn panel_to_screen_identity_camera_is_identity() {
    let vp = Viewport { x: 0, y: 0, width: 200, height: 100 };
    let mv = Mat4::identity();
    let proj = ortho_viewport(vp);
    assert_eq!(panel_to_screen(20, 220, &mv, &proj, vp), Some((20, 220)));
    assert_eq!(panel_to_screen(-3, 7, &mv, &proj, vp), Some((-3, 7)));
}

#[test]
fn panel_to_screen_offset_viewport() {
    // With the viewport moved, the ortho camera still reproduces panel
    // coordinates: the mapping composes to the identity.
    let vp = Viewport { x: 40, y: 30, width: 256, height: 128 };
    let mv = Mat4::identity();
    let proj = ortho_viewport(vp);
    assert_eq!(panel_to_screen(90, 60, &mv, &proj, vp), Some((90, 60)));
}

#[test]
fn panel_to_screen_degenerate_w_is_none() {
    // A projection whose fourth column is all zero gives w == 0: the
    // perspective divide is reported as a checked failure, not an
    // IEEE infinity.
    let vp = Viewport { x: 0, y: 0, width: 200, height: 100 };
    let mv = Mat4::identity();
    let o = rat(1);
    let z = rat(0);
    let proj = Mat4::new([
        o, z, z, z,
        z, o, z, z,
        z, z, o, z,
        z, z, z, z,
    ]);
    assert_eq!(panel_to_screen(10, 10, &mv, &proj, vp), None);
}

#[test]
fn screen_to_panel_inverts_the_identity_camera() {
    let vp = Viewport { x: 0, y: 0, width: 200, height: 100 };
    assert_eq!(screen_to_panel_ortho(20, 220, vp), Some((20, 220)));
    let vp2 = Viewport { x: 40, y: 30, width: 256, height: 128 };
    assert_eq!(screen_to_panel_ortho(90, 60, vp2), Some((90, 60)));
}

#[test]
fn screen_to_panel_zero_viewport_is_none() {
    let vp = Viewport { x: 0, y: 0, width: 0, height: 100 };
    assert_eq!(screen_to_panel_ortho(10, 10, vp), None);
}

#[test]
fn end_to_end_scene_scissor() {
    // Clip rect [0, 0, 100, 50] on a 200 x 100 logical surface mapped
    // onto a panel at (left 20, top 220, right 220, bottom 120), with
    // the identity camera and a 200 x 100 viewport at the origin:
    // scissor (left 20, bottom 170, width 100, height 50).
    let clip = ClipRect::new(rat(0), rat(0), rat(100), rat(50));
    let vp = Viewport { x: 0, y: 0, width: 200, height: 100 };
    let mv = Mat4::identity();
    let proj = ortho_viewport(vp);
    let s = scene_scissor(20, 220, &clip, &mv, &proj, vp).unwrap();
    assert_eq!(s, ScissorRect { left: 20, bottom: 170, width: 100, height: 50 });
}

#[test]
fn device_to_logical_direct_divides_out_the_scale() {
    let two = rat(2);
    let (lx, ly) =
        imgui_support::transform::device_to_logical_direct(rat(300), rat(150), two, two).unwrap();
    assert_eq!(lx.num, 150 * lx.den);
    assert_eq!(ly.num, 75 * ly.den);
}

#[test]
fn device_to_logical_direct_rejects_zero_scale() {
    let z = rat(0);
    assert!(
        imgui_support::transform::device_to_logical_direct(rat(10), rat(10), z, rat(1)).is_none()
    );
}

#[test]
fn direct_scissor_scales_and_flips() {
    // Clip [10, 10, 30, 40] at scale 2 against a 200-pixel-high
    // framebuffer: corners (20, 180) and (60, 120), recombined.
    let clip = ClipRect::new(rat(10), rat(10), rat(30), rat(40));
    let s = direct_scissor(&clip, rat(2), rat(2), rat(200)).unwrap();
    assert_eq!(s, ScissorRect { left: 20, bottom: 120, width: 40, height: 60 });
}

#[test]
fn direct_scissor_normalizes_reversed_clip_corners() {
    // A clip rect handed over with its corners swapped still yields an
    // ordered scissor rectangle.
    let clip = ClipRect::new(rat(30), rat(40), rat(10), rat(10));
    let s = direct_scissor(&clip, rat(1), rat(1), rat(100)).unwrap();
    assert_eq!(s, ScissorRect { left: 10, bottom: 60, width: 20, height: 30 });
}
