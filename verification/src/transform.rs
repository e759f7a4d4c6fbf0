//! The coordinate-space conversions of the pipeline.
//!
//! Render path: a UI clip rectangle in logical space becomes an integer
//! scissor rectangle for the active backend.  The direct-framebuffer
//! policy scales and flips against the framebuffer; the scene-panel
//! policy first translates into the panel's own pixel space and then
//! projects through the live camera (modelview × projection × viewport).
//!
//! Input path: a host cursor position in window pixels becomes a logical
//! point, or an explicit "outside the surface" outcome.
//!
//! Every function is pure: same inputs, same outputs, no graphics-API
//! calls.  Failure cases are explicit — a degenerate homogeneous `w`
//! or a 64-bit overflow of an exact intermediate yields `None`, which a
//! caller treats as "do not draw / do not hit-test".

use crate::geometry::Rect;
use crate::linalg::{
    lemma_mul_one, lemma_mul_zero, mat_vec_mul, spec_dot_col, spec_mat_vec_mul, Mat4, Vec4,
};
use crate::rational::{
    in_i64, lemma_add_wf, lemma_div_wf, lemma_mul_wf, lemma_sub_wf, sat_i32, spec_add, spec_div,
    spec_mul, spec_one, spec_sub, spec_trunc, spec_zero, Rational,
};
use vstd::prelude::*;

verus! {

/// The host's current on-screen pixel rectangle for the active camera.
#[derive(Clone, Copy, Debug, PartialEq, Eq, Structural)]
pub struct Viewport {
    pub x: i32,
    pub y: i32,
    pub width: i32,
    pub height: i32,
}

/// A draw command's clip rectangle in UI-logical space, corners
/// `(x0, y0)` (top-left) and `(x1, y1)` (bottom-right).
#[derive(Clone, Copy, Debug)]
pub struct ClipRect {
    pub x0: Rational,
    pub y0: Rational,
    pub x1: Rational,
    pub y1: Rational,
}

impl ClipRect {
    pub open spec fn wf(self) -> bool {
        self.x0.wf() && self.y0.wf() && self.x1.wf() && self.y1.wf()
    }

    pub fn new(x0: Rational, y0: Rational, x1: Rational, y1: Rational) -> (c: ClipRect)
        ensures
            c == (ClipRect { x0, y0, x1, y1 }),
    {
        ClipRect { x0, y0, x1, y1 }
    }
}

/// An integer pixel rectangle for a scissor-test call, origin at its
/// bottom-left corner, with non-negative spans.
#[derive(Clone, Copy, Debug, PartialEq, Eq, Structural)]
pub struct ScissorRect {
    pub left: i32,
    pub bottom: i32,
    pub width: u32,
    pub height: u32,
}

// ---------------------------------------------------------------------
// Scene-panel policy, step 1: logical → panel-local pixels.
// ---------------------------------------------------------------------

/// Translate a UI-logical coordinate into the panel's own pixel space:
/// add the panel's screen-space origin and flip vertically, since the
/// panel rectangle is bottom-up while the UI surface is top-down.  The
/// fractional logical coordinates are truncated and clamped exactly as
/// the host's float-to-`i32` cast would.
pub open spec fn spec_logical_to_panel(left: i32, top: i32, x: Rational, y: Rational) -> (
    i64,
    i64,
) {
    ((left + sat_i32(spec_trunc(x))) as i64, (top - sat_i32(spec_trunc(y))) as i64)
}

pub fn logical_to_panel(left: i32, top: i32, x: Rational, y: Rational) -> (p: (i64, i64))
    requires
        x.wf(),
        y.wf(),
    ensures
        p == spec_logical_to_panel(left, top, x, y),
{
    let px = left as i64 + x.trunc_sat_i32() as i64;
    let py = top as i64 - y.trunc_sat_i32() as i64;
    (px, py)
}

// ---------------------------------------------------------------------
// Scene-panel policy, step 2: panel-local pixels → on-screen pixels.
// ---------------------------------------------------------------------

/// A panel-local pixel as a point in model space at `z = 0`, `w = 1`.
pub open spec fn spec_panel_point(x: i64, y: i64) -> Vec4 {
    Vec4 {
        x: Rational { num: x, den: 1 },
        y: Rational { num: y, den: 1 },
        z: spec_zero(),
        w: spec_one(),
    }
}

/// Map one normalized-device coordinate (range [-1, 1]) into viewport
/// pixels along one axis: `(ndc/2 + 1/2) * size + origin`.
pub open spec fn spec_viewport_map(ndc: Rational, origin: i32, size: i32) -> Option<Rational> {
    let half = Rational { num: 1, den: 2 };
    match spec_mul(ndc, half) {
        Some(a) => match spec_add(a, half) {
            Some(b) => match spec_mul(b, Rational { num: size as i64, den: 1 }) {
                Some(c) => spec_add(c, Rational { num: origin as i64, den: 1 }),
                None => None,
            },
            None => None,
        },
        None => None,
    }
}

fn viewport_map(ndc: Rational, origin: i32, size: i32) -> (r: Option<Rational>)
    requires
        ndc.wf(),
    ensures
        r == spec_viewport_map(ndc, origin, size),
        r matches Some(q) ==> q.wf(),
{
    let half = Rational { num: 1, den: 2 };
    proof {
        lemma_mul_wf(ndc, half);
    }
    let a = match ndc.mul(half) {
        Some(a) => a,
        None => {
            return None;
        },
    };
    proof {
        lemma_add_wf(a, half);
    }
    let b = match a.add(half) {
        Some(b) => b,
        None => {
            return None;
        },
    };
    let s = Rational::from_int(size as i64);
    proof {
        lemma_mul_wf(b, s);
    }
    let c = match b.mul(s) {
        Some(c) => c,
        None => {
            return None;
        },
    };
    let o = Rational::from_int(origin as i64);
    proof {
        lemma_add_wf(c, o);
    }
    c.add(o)
}

/// Project a panel-local pixel through the camera: modelview to eye
/// space, projection to clip space, perspective divide, then the
/// viewport mapping; the screen coordinates are truncated and clamped
/// into the 32-bit pixel range.  `None` when the homogeneous `w` is
/// exactly zero, or on 64-bit overflow of an exact intermediate.
pub open spec fn spec_panel_to_screen(
    x: i64,
    y: i64,
    modelview: Mat4,
    projection: Mat4,
    vp: Viewport,
) -> Option<(i32, i32)> {
    match spec_mat_vec_mul(modelview, spec_panel_point(x, y)) {
        None => None,
        Some(eye) => match spec_mat_vec_mul(projection, eye) {
            None => None,
            Some(clip) => match (spec_div(clip.x, clip.w), spec_div(clip.y, clip.w)) {
                (Some(nx), Some(ny)) => match (
                    spec_viewport_map(nx, vp.x, vp.width),
                    spec_viewport_map(ny, vp.y, vp.height),
                ) {
                    (Some(sx), Some(sy)) => Some(
                        (sat_i32(spec_trunc(sx)) as i32, sat_i32(spec_trunc(sy)) as i32),
                    ),
                    _ => None,
                },
                _ => None,
            },
        },
    }
}

pub fn panel_to_screen(x: i64, y: i64, modelview: &Mat4, projection: &Mat4, vp: Viewport) -> (r:
    Option<(i32, i32)>)
    requires
        modelview.wf(),
        projection.wf(),
    ensures
        r == spec_panel_to_screen(x, y, *modelview, *projection, vp),
{
    let v = Vec4 {
        x: Rational::from_int(x),
        y: Rational::from_int(y),
        z: Rational { num: 0, den: 1 },
        w: Rational { num: 1, den: 1 },
    };
    let eye = match mat_vec_mul(modelview, &v) {
        Some(e) => e,
        None => {
            return None;
        },
    };
    let clip = match mat_vec_mul(projection, &eye) {
        Some(c) => c,
        None => {
            return None;
        },
    };
    proof {
        lemma_div_wf(clip.x, clip.w);
        lemma_div_wf(clip.y, clip.w);
    }
    let nx = match clip.x.div(clip.w) {
        Some(n) => n,
        None => {
            return None;
        },
    };
    let ny = match clip.y.div(clip.w) {
        Some(n) => n,
        None => {
            return None;
        },
    };
    let sx = match viewport_map(nx, vp.x, vp.width) {
        Some(s) => s,
        None => {
            return None;
        },
    };
    let sy = match viewport_map(ny, vp.y, vp.height) {
        Some(s) => s,
        None => {
            return None;
        },
    };
    Some((sx.trunc_sat_i32(), sy.trunc_sat_i32()))
}

// ---------------------------------------------------------------------
// Corner recombination.
// ---------------------------------------------------------------------

/// Recombine two independently transformed corners into an ordered
/// scissor rectangle: `left <= right` and `bottom <= top` hold whatever
/// order the corners arrived in.
pub open spec fn spec_normalize_corners(a: (i32, i32), b: (i32, i32)) -> ScissorRect {
    let l = if a.0 <= b.0 {
        a.0
    } else {
        b.0
    };
    let r = if a.0 <= b.0 {
        b.0
    } else {
        a.0
    };
    let bo = if a.1 <= b.1 {
        a.1
    } else {
        b.1
    };
    let t = if a.1 <= b.1 {
        b.1
    } else {
        a.1
    };
    ScissorRect { left: l, bottom: bo, width: (r - l) as u32, height: (t - bo) as u32 }
}

pub fn normalize_corners(a: (i32, i32), b: (i32, i32)) -> (s: ScissorRect)
    ensures
        s == spec_normalize_corners(a, b),
{
    let l = if a.0 <= b.0 {
        a.0
    } else {
        b.0
    };
    let r = if a.0 <= b.0 {
        b.0
    } else {
        a.0
    };
    let bo = if a.1 <= b.1 {
        a.1
    } else {
        b.1
    };
    let t = if a.1 <= b.1 {
        b.1
    } else {
        a.1
    };
    let w = (r as i64 - l as i64) as u32;
    let h = (t as i64 - bo as i64) as u32;
    ScissorRect { left: l, bottom: bo, width: w, height: h }
}

/// However the two transformed corners are ordered, the recombined
/// rectangle is normalized: its left edge is the smaller abscissa, its
/// bottom edge the smaller ordinate, and its spans reach exactly to the
/// larger ones — so `left <= left + width` and `bottom <= bottom + height`.
pub proof fn lemma_scissor_corners_ordered(a: (i32, i32), b: (i32, i32))
    ensures
        ({
            let s = spec_normalize_corners(a, b);
            &&& s.left <= s.left + s.width
            &&& s.bottom <= s.bottom + s.height
            &&& s.left == if a.0 <= b.0 { a.0 } else { b.0 }
            &&& s.bottom == if a.1 <= b.1 { a.1 } else { b.1 }
            &&& s.left + s.width == if a.0 <= b.0 { b.0 } else { a.0 }
            &&& s.bottom + s.height == if a.1 <= b.1 { b.1 } else { a.1 }
            &&& spec_normalize_corners(a, b) == spec_normalize_corners(b, a)
        }),
{
}

// ---------------------------------------------------------------------
// Scene-panel policy, combined render-path conversion.
// ---------------------------------------------------------------------

/// The whole scene-panel render conversion for one clip rectangle: both
/// corners go through the panel translation and the camera projection
/// independently, and are recombined into an ordered scissor rectangle.
pub open spec fn spec_scene_scissor(
    panel_left: i32,
    panel_top: i32,
    clip: ClipRect,
    modelview: Mat4,
    projection: Mat4,
    vp: Viewport,
) -> Option<ScissorRect> {
    let a = spec_logical_to_panel(panel_left, panel_top, clip.x0, clip.y0);
    let b = spec_logical_to_panel(panel_left, panel_top, clip.x1, clip.y1);
    match (
        spec_panel_to_screen(a.0, a.1, modelview, projection, vp),
        spec_panel_to_screen(b.0, b.1, modelview, projection, vp),
    ) {
        (Some(pa), Some(pb)) => Some(spec_normalize_corners(pa, pb)),
        _ => None,
    }
}

pub fn scene_scissor(
    panel_left: i32,
    panel_top: i32,
    clip: &ClipRect,
    modelview: &Mat4,
    projection: &Mat4,
    vp: Viewport,
) -> (r: Option<ScissorRect>)
    requires
        clip.wf(),
        modelview.wf(),
        projection.wf(),
    ensures
        r == spec_scene_scissor(panel_left, panel_top, *clip, *modelview, *projection, vp),
{
    let a = logical_to_panel(panel_left, panel_top, clip.x0, clip.y0);
    let b = logical_to_panel(panel_left, panel_top, clip.x1, clip.y1);
    let pa = match panel_to_screen(a.0, a.1, modelview, projection, vp) {
        Some(p) => p,
        None => {
            return None;
        },
    };
    let pb = match panel_to_screen(b.0, b.1, modelview, projection, vp) {
        Some(p) => p,
        None => {
            return None;
        },
    };
    Some(normalize_corners(pa, pb))
}

// ---------------------------------------------------------------------
// Direct-framebuffer policy, render path.
// ---------------------------------------------------------------------

/// Map a logical point into framebuffer pixels: scale by the
/// display-to-framebuffer factor and flip the vertical axis around the
/// framebuffer height, because the scissor origin is bottom-left while
/// the UI origin is top-left.  A pure function of
/// (logical point, scale, framebuffer height).
pub open spec fn spec_logical_to_device(
    x: Rational,
    y: Rational,
    scale_x: Rational,
    scale_y: Rational,
    fb_height: Rational,
) -> Option<(i32, i32)> {
    match (spec_mul(x, scale_x), spec_mul(y, scale_y)) {
        (Some(dx), Some(sy)) => match spec_sub(fb_height, sy) {
            Some(dy) => Some((sat_i32(spec_trunc(dx)) as i32, sat_i32(spec_trunc(dy)) as i32)),
            None => None,
        },
        _ => None,
    }
}

pub fn logical_to_device_point(
    x: Rational,
    y: Rational,
    scale_x: Rational,
    scale_y: Rational,
    fb_height: Rational,
) -> (r: Option<(i32, i32)>)
    requires
        x.wf(),
        y.wf(),
        scale_x.wf(),
        scale_y.wf(),
        fb_height.wf(),
    ensures
        r == spec_logical_to_device(x, y, scale_x, scale_y, fb_height),
{
    proof {
        lemma_mul_wf(x, scale_x);
        lemma_mul_wf(y, scale_y);
    }
    let dx = match x.mul(scale_x) {
        Some(d) => d,
        None => {
            return None;
        },
    };
    let sy = match y.mul(scale_y) {
        Some(s) => s,
        None => {
            return None;
        },
    };
    proof {
        lemma_sub_wf(fb_height, sy);
    }
    match fb_height.sub(sy) {
        Some(dy) => Some((dx.trunc_sat_i32(), dy.trunc_sat_i32())),
        None => None,
    }
}

/// The whole direct-framebuffer render conversion for one clip
/// rectangle: both corners are converted independently and recombined
/// into an ordered scissor rectangle.
pub open spec fn spec_direct_scissor(
    clip: ClipRect,
    scale_x: Rational,
    scale_y: Rational,
    fb_height: Rational,
) -> Option<ScissorRect> {
    match (
        spec_logical_to_device(clip.x0, clip.y0, scale_x, scale_y, fb_height),
        spec_logical_to_device(clip.x1, clip.y1, scale_x, scale_y, fb_height),
    ) {
        (Some(pa), Some(pb)) => Some(spec_normalize_corners(pa, pb)),
        _ => None,
    }
}

pub fn direct_scissor(
    clip: &ClipRect,
    scale_x: Rational,
    scale_y: Rational,
    fb_height: Rational,
) -> (r: Option<ScissorRect>)
    requires
        clip.wf(),
        scale_x.wf(),
        scale_y.wf(),
        fb_height.wf(),
    ensures
        r == spec_direct_scissor(*clip, scale_x, scale_y, fb_height),
{
    let pa = match logical_to_device_point(clip.x0, clip.y0, scale_x, scale_y, fb_height) {
        Some(p) => p,
        None => {
            return None;
        },
    };
    let pb = match logical_to_device_point(clip.x1, clip.y1, scale_x, scale_y, fb_height) {
        Some(p) => p,
        None => {
            return None;
        },
    };
    Some(normalize_corners(pa, pb))
}

/// At unit scale the direct conversion is exactly the vertical flip:
/// logical `(x, y)` lands on device `(x, fb_height - y)`, clamped into
/// the 32-bit pixel range, for every integer input whose flip stays in
/// 64 bits.
pub proof fn lemma_direct_unit_scale(x: i64, y: i64, fb_height: i64)
    requires
        in_i64(fb_height - y),
    ensures
        spec_logical_to_device(
            Rational { num: x, den: 1 },
            Rational { num: y, den: 1 },
            spec_one(),
            spec_one(),
            Rational { num: fb_height, den: 1 },
        ) == Some((sat_i32(x as int) as i32, sat_i32(fb_height - y) as i32)),
{
    let x_r = Rational { num: x, den: 1i64 };
    let y_r = Rational { num: y, den: 1i64 };
    let f_r = Rational { num: fb_height, den: 1i64 };
    lemma_mul_one(x_r);
    lemma_mul_one(y_r);
    let d_r = Rational { num: (fb_height - y) as i64, den: 1i64 };
    assert(spec_sub(f_r, y_r) == Some(d_r)) by {
        assert(f_r.num * 1 - y_r.num * 1 == fb_height - y);
        assert(f_r.den * 1 == 1int);
    }
    lemma_trunc_of_den_one(x_r);
    lemma_trunc_of_den_one(d_r);
}

/// A fraction over one truncates to its numerator.
proof fn lemma_trunc_of_den_one(r: Rational)
    requires
        r.den == 1,
    ensures
        spec_trunc(r) == r.num,
{
    let n = r.num as int;
    if n >= 0 {
        assert(n / 1 == n);
    } else {
        assert((-n) / 1 == -n);
    }
}

// ---------------------------------------------------------------------
// Input path: device → logical.
// ---------------------------------------------------------------------

/// Map a window-local cursor position into the panel's logical space:
/// `(x - left, top - y)`, or `None` when the point falls outside the
/// addressable rectangle — an explicit outcome in place of a sentinel
/// coordinate, so hit-testing treats it as "pointer left the surface"
/// rather than "pointer at the nearest edge".
pub open spec fn spec_device_to_logical(panel: Rect, x: i32, y: i32) -> Option<(i64, i64)> {
    let ox = x - panel.left;
    let oy = panel.top - y;
    if 0 <= ox && ox <= panel.right - panel.left && 0 <= oy && oy <= panel.top - panel.bottom {
        Some((ox as i64, oy as i64))
    } else {
        None
    }
}

pub fn device_to_logical(panel: &Rect, x: i32, y: i32) -> (r: Option<(i64, i64)>)
    ensures
        r == spec_device_to_logical(*panel, x, y),
{
    let ox = x as i64 - panel.left as i64;
    let oy = panel.top as i64 - y as i64;
    if 0 <= ox && ox <= panel.right as i64 - panel.left as i64 && 0 <= oy && oy <= panel.top as i64
        - panel.bottom as i64 {
        Some((ox, oy))
    } else {
        None
    }
}

/// Map a host cursor position into logical coordinates under the
/// direct-framebuffer policy: the host's DPI factor is divided out,
/// one scale per axis.  Positions are never rejected — the host clips
/// before delivering events — so the only failures are a zero scale
/// and 64-bit overflow.
pub open spec fn spec_device_to_logical_direct(
    x: Rational,
    y: Rational,
    scale_x: Rational,
    scale_y: Rational,
) -> Option<(Rational, Rational)> {
    match (spec_div(x, scale_x), spec_div(y, scale_y)) {
        (Some(lx), Some(ly)) => Some((lx, ly)),
        _ => None,
    }
}

pub fn device_to_logical_direct(
    x: Rational,
    y: Rational,
    scale_x: Rational,
    scale_y: Rational,
) -> (r: Option<(Rational, Rational)>)
    requires
        x.wf(),
        y.wf(),
    ensures
        r == spec_device_to_logical_direct(x, y, scale_x, scale_y),
{
    let lx = match x.div(scale_x) {
        Some(l) => l,
        None => {
            return None;
        },
    };
    match y.div(scale_y) {
        Some(ly) => Some((lx, ly)),
        None => None,
    }
}

// ---------------------------------------------------------------------
// The one-to-one orthographic camera and its inverse mapping.
// ---------------------------------------------------------------------

/// `m` is the orthographic projection matching the viewport one-to-one:
/// a row vector `[x, y, z, 1]` lands on NDC `((2x - 2vx - vw)/vw,
/// (2y - 2vy - vh)/vh, z, 1)`, so the viewport rectangle covers the NDC
/// square exactly.
pub open spec fn is_ortho_viewport(m: Mat4, vp: Viewport) -> bool {
    &&& m.e[0] == (Rational { num: 2, den: vp.width as i64 })
    &&& m.e[1] == spec_zero()
    &&& m.e[2] == spec_zero()
    &&& m.e[3] == spec_zero()
    &&& m.e[4] == spec_zero()
    &&& m.e[5] == (Rational { num: 2, den: vp.height as i64 })
    &&& m.e[6] == spec_zero()
    &&& m.e[7] == spec_zero()
    &&& m.e[8] == spec_zero()
    &&& m.e[9] == spec_zero()
    &&& m.e[10] == spec_one()
    &&& m.e[11] == spec_zero()
    &&& m.e[12] == (Rational {
        num: (-(2 * (vp.x as int) + (vp.width as int))) as i64,
        den: vp.width as i64,
    })
    &&& m.e[13] == (Rational {
        num: (-(2 * (vp.y as int) + (vp.height as int))) as i64,
        den: vp.height as i64,
    })
    &&& m.e[14] == spec_zero()
    &&& m.e[15] == spec_one()
}

/// Build the orthographic projection matching the viewport one-to-one.
pub fn ortho_viewport(vp: Viewport) -> (m: Mat4)
    requires
        vp.width > 0,
        vp.height > 0,
    ensures
        is_ortho_viewport(m, vp),
        m.wf(),
{
    let z = Rational { num: 0, den: 1 };
    let o = Rational { num: 1, den: 1 };
    let sx = Rational { num: 2, den: vp.width as i64 };
    let sy = Rational { num: 2, den: vp.height as i64 };
    let tx = Rational { num: -(2 * (vp.x as i64) + vp.width as i64), den: vp.width as i64 };
    let ty = Rational { num: -(2 * (vp.y as i64) + vp.height as i64), den: vp.height as i64 };
    let m = Mat4 { e: [sx, z, z, z, z, sy, z, z, z, z, o, z, tx, ty, z, o] };
    proof {
        assert forall|k: int| 0 <= k < 16 implies #[trigger] m.e[k].wf() by {
            assert(sx.wf() && sy.wf() && tx.wf() && ty.wf() && z.wf() && o.wf());
        }
    }
    m
}

/// Undo the screen mapping of the one-to-one orthographic camera along
/// one axis: viewport pixel back to NDC, `(s - o) * 2 / size - 1`, then
/// NDC back to a panel coordinate, `(ndc * size + 2o + size) / 2`.
pub open spec fn spec_unmap_axis(s: i64, origin: i32, size: i32) -> Option<Rational> {
    let size_r = Rational { num: size as i64, den: 1 };
    match spec_sub(Rational { num: s, den: 1 }, Rational { num: origin as i64, den: 1 }) {
        Some(so) => match spec_mul(so, Rational { num: 2, den: 1 }) {
            Some(m1) => match spec_div(m1, size_r) {
                Some(nd) => match spec_sub(nd, spec_one()) {
                    Some(ndc) => match spec_mul(ndc, size_r) {
                        Some(t) => match spec_add(
                            t,
                            Rational { num: (2 * (origin as int) + size) as i64, den: 1 },
                        ) {
                            Some(u) => spec_mul(u, Rational { num: 1, den: 2 }),
                            None => None,
                        },
                        None => None,
                    },
                    None => None,
                },
                None => None,
            },
            None => None,
        },
        None => None,
    }
}

fn unmap_axis(s: i64, origin: i32, size: i32) -> (r: Option<Rational>)
    ensures
        r == spec_unmap_axis(s, origin, size),
        r matches Some(q) ==> q.wf(),
{
    let size_r = Rational { num: size as i64, den: 1 };
    let s_r = Rational { num: s, den: 1 };
    let o_r = Rational { num: origin as i64, den: 1 };
    proof {
        lemma_sub_wf(s_r, o_r);
    }
    let so = match s_r.sub(o_r) {
        Some(v) => v,
        None => {
            return None;
        },
    };
    let two = Rational { num: 2, den: 1 };
    proof {
        lemma_mul_wf(so, two);
    }
    let m1 = match so.mul(two) {
        Some(v) => v,
        None => {
            return None;
        },
    };
    proof {
        lemma_div_wf(m1, size_r);
    }
    let nd = match m1.div(size_r) {
        Some(v) => v,
        None => {
            return None;
        },
    };
    let one = Rational { num: 1, den: 1 };
    proof {
        lemma_sub_wf(nd, one);
    }
    let ndc = match nd.sub(one) {
        Some(v) => v,
        None => {
            return None;
        },
    };
    proof {
        lemma_mul_wf(ndc, size_r);
    }
    let t = match ndc.mul(size_r) {
        Some(v) => v,
        None => {
            return None;
        },
    };
    let q_r = Rational { num: 2 * (origin as i64) + size as i64, den: 1 };
    proof {
        lemma_add_wf(t, q_r);
    }
    let u = match t.add(q_r) {
        Some(v) => v,
        None => {
            return None;
        },
    };
    let half = Rational { num: 1, den: 2 };
    proof {
        lemma_mul_wf(u, half);
    }
    u.mul(half)
}

/// Inverse of [`spec_panel_to_screen`] for the identity camera with the
/// one-to-one orthographic projection: an on-screen pixel back to the
/// panel-local point, truncated toward zero.  `None` when the viewport
/// has a zero extent or an exact intermediate overflows 64 bits.
pub open spec fn spec_screen_to_panel_ortho(sx: i64, sy: i64, vp: Viewport) -> Option<(i64, i64)> {
    match (spec_unmap_axis(sx, vp.x, vp.width), spec_unmap_axis(sy, vp.y, vp.height)) {
        (Some(px), Some(py)) => Some(
            (spec_trunc(px) as i64, spec_trunc(py) as i64),
        ),
        _ => None,
    }
}

pub fn screen_to_panel_ortho(sx: i64, sy: i64, vp: Viewport) -> (r: Option<(i64, i64)>)
    ensures
        r == spec_screen_to_panel_ortho(sx, sy, vp),
{
    let px = match unmap_axis(sx, vp.x, vp.width) {
        Some(p) => p,
        None => {
            return None;
        },
    };
    let py = match unmap_axis(sy, vp.y, vp.height) {
        Some(p) => p,
        None => {
            return None;
        },
    };
    proof {
        crate::rational::lemma_trunc_in_i64(px);
        crate::rational::lemma_trunc_in_i64(py);
    }
    Some((px.trunc(), py.trunc()))
}

// ---------------------------------------------------------------------
// Round trip of the identity camera.
// ---------------------------------------------------------------------

/// A fraction standing for exactly the integer `v` truncates to `v`.
proof fn lemma_trunc_of_int_value(r: Rational, v: int)
    requires
        r.wf(),
        r.num == v * r.den,
    ensures
        spec_trunc(r) == v,
{
    let n = r.num as int;
    let d = r.den as int;
    vstd::arithmetic::mul::lemma_mul_is_commutative(v, d);
    vstd::arithmetic::div_mod::lemma_div_multiples_vanish(v, d);
    if n >= 0 {
        assert(n / d == v);
    } else {
        vstd::arithmetic::mul::lemma_mul_unary_negation(v, d);
        vstd::arithmetic::mul::lemma_mul_is_commutative(-v, d);
        vstd::arithmetic::div_mod::lemma_div_multiples_vanish(-v, d);
        assert((-n) / d == -v);
    }
}

/// If `ndc` stands for exactly `(2p - 2o - size) / size`, the viewport
/// mapping lands on exactly `p`: it succeeds, and its result is a
/// well-formed fraction standing for the integer `p`.  The bounds keep
/// every exact intermediate inside 64 bits.
proof fn lemma_viewport_map_exact(ndc: Rational, o: i32, size: i32, p: int)
    requires
        ndc.wf(),
        0 < size <= 0x80000,
        -0x80000 <= o <= 0x80000,
        -0x80000 <= p <= 0x80000,
        -0x20000000000 <= ndc.num <= 0x20000000000,
        ndc.den <= 0x8000000000,
        ndc.num * (size as int) == (2 * p - 2 * (o as int) - (size as int)) * ndc.den,
    ensures
        spec_viewport_map(ndc, o, size) matches Some(s) && s.wf() && s.num == p * s.den,
{
    let nn = ndc.num as int;
    let nd = ndc.den as int;
    let oi = o as int;
    let si = size as int;
    let k = 2 * p - 2 * oi - si;
    let half = Rational { num: 1i64, den: 2i64 };
    let size_r = Rational { num: size as i64, den: 1i64 };
    let o_r = Rational { num: o as i64, den: 1i64 };
    let a_v = Rational { num: ndc.num, den: (2 * nd) as i64 };
    assert(spec_mul(ndc, half) == Some(a_v)) by {
        assert(ndc.num * 1 == nn);
        assert(ndc.den * 2 == 2 * nd);
    }
    if nn == 0 {
        assert(k == 0) by (nonlinear_arith)
            requires
                nn * si == k * nd,
                nd > 0,
                nn == 0,
        ;
        assert(spec_add(a_v, half) == Some(half));
        let c_v = Rational { num: size as i64, den: 2i64 };
        assert(spec_mul(half, size_r) == Some(c_v)) by {
            assert(1 * (size as i64) == si);
            assert(2 * 1 == 2int);
        }
        if o == 0 {
            assert(spec_add(c_v, o_r) == Some(c_v));
            assert(c_v.num == p * c_v.den);
        } else {
            let d_v = Rational { num: (si + 2 * oi) as i64, den: 2i64 };
            assert(spec_add(c_v, o_r) == Some(d_v)) by {
                assert(c_v.num * 1 == si);
                assert(o_r.num * c_v.den == (o as i64) * 2);
                assert((o as i64) * 2 == 2 * oi);
                assert(c_v.den * 1 == 2int);
            }
            assert(p * d_v.den == p * 2);
            assert(d_v.num == p * d_v.den);
        }
    } else {
        let bn = 2 * nn + 2 * nd;
        let b_v = Rational { num: bn as i64, den: (4 * nd) as i64 };
        assert(spec_add(a_v, half) == Some(b_v)) by {
            assert(a_v.num * 2 + 1 * a_v.den == bn);
            assert(a_v.den * 2 == 4 * nd);
        }
        assert(-0x4000000000000000 <= bn * si <= 0x4000000000000000) by (nonlinear_arith)
            requires
                -0x60000000000 <= bn <= 0x60000000000,
                0 < si <= 0x80000,
        ;
        let c_v = Rational { num: (bn * si) as i64, den: (4 * nd) as i64 };
        assert(spec_mul(b_v, size_r) == Some(c_v)) by {
            assert(b_v.num * size_r.num == bn * si);
            assert(b_v.den * 1 == 4 * nd);
        }
        if o == 0 {
            assert(spec_add(c_v, o_r) == Some(c_v));
            assert(bn * si == p * (4 * nd)) by (nonlinear_arith)
                requires
                    nn * si == k * nd,
                    k == 2 * p - 2 * oi - si,
                    oi == 0,
                    bn == 2 * nn + 2 * nd,
            ;
            assert(c_v.num == p * c_v.den);
        } else if bn * si == 0 {
            assert(bn == 0) by (nonlinear_arith)
                requires
                    bn * si == 0,
                    si > 0,
            ;
            assert(k == -si) by (nonlinear_arith)
                requires
                    nn * si == k * nd,
                    nn == -nd,
                    nd > 0,
            ;
            assert(p == oi);
            assert(spec_add(c_v, o_r) == Some(o_r));
            assert(o_r.num == p * o_r.den);
        } else {
            let dn = bn * si + oi * (4 * nd);
            assert(-0x7000000000000000 <= dn <= 0x7000000000000000) by (nonlinear_arith)
                requires
                    -0x4000000000000000 <= bn * si <= 0x4000000000000000,
                    -0x80000 <= oi <= 0x80000,
                    0 < nd <= 0x8000000000,
                    dn == bn * si + oi * (4 * nd),
            ;
            let d_v = Rational { num: dn as i64, den: (4 * nd) as i64 };
            assert(spec_add(c_v, o_r) == Some(d_v)) by {
                assert(c_v.num * 1 == bn * si);
                assert(o_r.num * c_v.den == oi * (4 * nd));
                assert(c_v.den * 1 == 4 * nd);
            }
            assert(dn == p * (4 * nd)) by (nonlinear_arith)
                requires
                    nn * si == k * nd,
                    k == 2 * p - 2 * oi - si,
                    bn == 2 * nn + 2 * nd,
                    dn == bn * si + oi * (4 * nd),
            ;
            assert(d_v.num == p * d_v.den);
        }
    }
}

/// Undoing the one-to-one orthographic screen mapping of an integer
/// pixel succeeds and stands for exactly that pixel coordinate again.
proof fn lemma_unmap_axis_exact(s: i64, o: i32, size: i32)
    requires
        0 < size <= 0x80000,
        -0x80000 <= o <= 0x80000,
        -0x80000 <= s <= 0x80000,
    ensures
        spec_unmap_axis(s, o, size) matches Some(r) && r.wf() && r.num == (s as int) * r.den,
{
    let si = size as int;
    let oi = o as int;
    let sv = s as int;
    let size_r = Rational { num: size as i64, den: 1i64 };
    let so_v = Rational { num: (sv - oi) as i64, den: 1i64 };
    assert(spec_sub(Rational { num: s, den: 1 }, Rational { num: o as i64, den: 1 }) == Some(
        so_v,
    )) by {
        assert(s * 1 - (o as i64) * 1 == sv - oi);
    }
    let m1_v = Rational { num: (2 * (sv - oi)) as i64, den: 1i64 };
    assert(spec_mul(so_v, Rational { num: 2, den: 1 }) == Some(m1_v)) by {
        assert(so_v.num * 2 == 2 * (sv - oi));
        assert(1 * 1 == 1int);
    }
    let nd_v = Rational { num: m1_v.num, den: size as i64 };
    assert(spec_div(m1_v, size_r) == Some(nd_v)) by {
        assert(m1_v.num * 1 == m1_v.num);
        assert(m1_v.den * size_r.num == si);
    }
    let kn = 2 * (sv - oi) - si;
    let ndc_v = Rational { num: kn as i64, den: size as i64 };
    assert(spec_sub(nd_v, spec_one()) == Some(ndc_v)) by {
        assert(nd_v.num * 1 - 1 * nd_v.den == kn);
        assert(nd_v.den * 1 == si);
    }
    assert(-0x20000000000 <= kn * si <= 0x20000000000) by (nonlinear_arith)
        requires
            -0x300000 <= kn <= 0x300000,
            0 < si <= 0x80000,
    ;
    let t_v = Rational { num: (kn * si) as i64, den: size as i64 };
    assert(spec_mul(ndc_v, size_r) == Some(t_v)) by {
        assert(ndc_v.num * size_r.num == kn * si);
        assert(ndc_v.den * 1 == si);
    }
    let q = 2 * oi + si;
    let q_r = Rational { num: q as i64, den: 1i64 };
    if q == 0 {
        assert(spec_add(t_v, q_r) == Some(t_v));
        let p_v = Rational { num: t_v.num, den: (2 * si) as i64 };
        assert(spec_mul(t_v, Rational { num: 1, den: 2 }) == Some(p_v)) by {
            assert(t_v.num * 1 == kn * si);
            assert(t_v.den * 2 == 2 * si);
        }
        assert(kn * si == sv * (2 * si)) by (nonlinear_arith)
            requires
                kn == 2 * (sv - oi) - si,
                q == 2 * oi + si,
                q == 0,
        ;
        assert(p_v.num == sv * p_v.den);
    } else if kn * si == 0 {
        assert(kn == 0) by (nonlinear_arith)
            requires
                kn * si == 0,
                si > 0,
        ;
        assert(spec_add(t_v, q_r) == Some(q_r));
        let p_v = Rational { num: q as i64, den: 2i64 };
        assert(spec_mul(q_r, Rational { num: 1, den: 2 }) == Some(p_v)) by {
            assert(q_r.num * 1 == q);
            assert(q_r.den * 2 == 2int);
        }
        assert(q == sv * 2) by {
            assert(2 * (sv - oi) == si);
        }
        assert(p_v.num == sv * p_v.den);
    } else {
        let un = kn * si + q * si;
        assert(-0x40000000000 <= un <= 0x40000000000) by (nonlinear_arith)
            requires
                -0x20000000000 <= kn * si <= 0x20000000000,
                -0x300000 <= q <= 0x300000,
                0 < si <= 0x80000,
                un == kn * si + q * si,
        ;
        let u_v = Rational { num: un as i64, den: size as i64 };
        assert(spec_add(t_v, q_r) == Some(u_v)) by {
            assert(t_v.num * 1 == kn * si);
            assert(q_r.num * t_v.den == q * si);
            assert(t_v.den * 1 == si);
        }
        let p_v = Rational { num: un as i64, den: (2 * si) as i64 };
        assert(spec_mul(u_v, Rational { num: 1, den: 2 }) == Some(p_v)) by {
            assert(u_v.num * 1 == un);
            assert(u_v.den * 2 == 2 * si);
        }
        assert(un == sv * (2 * si)) by (nonlinear_arith)
            requires
                un == kn * si + q * si,
                kn == 2 * (sv - oi) - si,
                q == 2 * oi + si,
        ;
        assert(p_v.num == sv * p_v.den);
    }
}

/// Summing the scale term and the translation term of an orthographic
/// column gives a fraction standing for exactly
/// `(2p - 2o - size) / size`: the normalized-device coordinate of the
/// panel coordinate `p`.
proof fn lemma_ortho_column_sum(tmain: Rational, ttrans: Rational, p: int, o: int, size: int)
    requires
        0 < size <= 0x80000,
        -0x80000 <= o <= 0x80000,
        -0x80000 <= p <= 0x80000,
        tmain.num == 2 * p,
        tmain.den == size || (p == 0 && tmain.den == 1),
        ttrans.num == -(2 * o + size),
        ttrans.den == size,
    ensures
        spec_add(tmain, ttrans) matches Some(c) && c.wf() && c.num * size == (2 * p - 2 * o
            - size) * c.den && -0x20000000000 <= c.num <= 0x20000000000 && 0 < c.den
            <= 0x8000000000,
{
    let k = 2 * p - 2 * o - size;
    if ttrans.num == 0 {
        assert(spec_add(tmain, ttrans) == Some(tmain));
        assert(k == 2 * p);
        assert(tmain.num * size == k * tmain.den) by {
            if tmain.den == size {
            } else {
                assert(tmain.num * size == 0 * size);
                assert(k * tmain.den == k * 1);
            }
        }
    } else if tmain.num == 0 {
        assert(spec_add(tmain, ttrans) == Some(ttrans));
        assert(p == 0);
        assert(k == ttrans.num);
        assert(ttrans.num * size == k * ttrans.den);
    } else {
        assert(tmain.den == size);
        let n1 = tmain.num * ttrans.den;
        let n2 = ttrans.num * tmain.den;
        assert(n1 == (2 * p) * size);
        assert(n2 == (-(2 * o + size)) * size);
        assert(-0x8000000000 <= (2 * p) * size <= 0x8000000000) by (nonlinear_arith)
            requires
                -0x100000 <= 2 * p <= 0x100000,
                0 < size <= 0x80000,
        ;
        assert(-0xC000000000 <= (-(2 * o + size)) * size <= 0xC000000000) by (nonlinear_arith)
            requires
                -0x180000 <= -(2 * o + size) <= 0x180000,
                0 < size <= 0x80000,
        ;
        assert(0 < tmain.den * ttrans.den <= 0x4000000000) by (nonlinear_arith)
            requires
                0 < tmain.den <= 0x80000,
                0 < ttrans.den <= 0x80000,
        ;
        let c_v = Rational { num: (n1 + n2) as i64, den: (tmain.den * ttrans.den) as i64 };
        assert(spec_add(tmain, ttrans) == Some(c_v));
        assert((n1 + n2) * size == k * (tmain.den * ttrans.den)) by (nonlinear_arith)
            requires
                n1 == (2 * p) * size,
                n2 == (-(2 * o + size)) * size,
                tmain.den == size,
                ttrans.den == size,
                k == 2 * p - 2 * o - size,
        ;
        assert(c_v.num * size == k * c_v.den);
    }
}

/// Round trip of the identity camera: projecting a panel-local point
/// through an identity modelview, the one-to-one orthographic
/// projection and its viewport lands exactly on the same point, and the
/// inverse mapping recovers it exactly.  The bounds keep every exact
/// intermediate inside 64 bits; far outside them a conversion may
/// report overflow instead.
pub proof fn lemma_panel_round_trip(
    x: i64,
    y: i64,
    modelview: Mat4,
    projection: Mat4,
    vp: Viewport,
)
    requires
        modelview.is_identity(),
        is_ortho_viewport(projection, vp),
        0 < vp.width <= 0x80000,
        0 < vp.height <= 0x80000,
        -0x80000 <= vp.x <= 0x80000,
        -0x80000 <= vp.y <= 0x80000,
        -0x80000 <= x <= 0x80000,
        -0x80000 <= y <= 0x80000,
    ensures
        spec_panel_to_screen(x, y, modelview, projection, vp) == Some((x as i32, y as i32)),
        spec_screen_to_panel_ortho(x, y, vp) == Some((x, y)),
{
    let v = spec_panel_point(x, y);
    let xi = x as int;
    let yi = y as int;
    let vwi = vp.width as int;
    let vhi = vp.height as int;
    let txn = -(2 * (vp.x as int) + vwi);
    let tyn = -(2 * (vp.y as int) + vhi);
    lemma_mul_one(v.x);
    lemma_mul_one(v.y);
    lemma_mul_one(v.z);
    lemma_mul_one(v.w);
    lemma_mul_zero(v.x);
    lemma_mul_zero(v.y);
    lemma_mul_zero(v.z);
    lemma_mul_zero(v.w);
    // Identity modelview: the eye-space point is the model-space point.
    assert(spec_dot_col(modelview, v, 0) == Some(v.x));
    assert(spec_dot_col(modelview, v, 1) == Some(v.y));
    assert(spec_dot_col(modelview, v, 2) == Some(v.z));
    assert(spec_dot_col(modelview, v, 3) == Some(v.w));
    assert(spec_mat_vec_mul(modelview, v) == Some(v));
    // Orthographic projection: z and w columns pass through.
    assert(spec_dot_col(projection, v, 2) == Some(v.z));
    assert(spec_dot_col(projection, v, 3) == Some(v.w));
    // x column.
    let e0 = projection.e[0];
    let e12 = projection.e[12];
    let t0x = Rational { num: (2 * xi) as i64, den: vp.width as i64 };
    assert(spec_mul(v.x, e0) == Some(t0x)) by {
        assert(v.x.num * e0.num == x * 2);
        assert(v.x.den * e0.den == 1 * e0.den);
    }
    let t3x = Rational { num: txn as i64, den: vp.width as i64 };
    assert(spec_mul(v.w, e12) == Some(t3x)) by {
        assert(v.w.num * e12.num == 1 * e12.num);
        assert(v.w.den * e12.den == 1 * e12.den);
    }
    assert(spec_dot_col(projection, v, 0) == spec_add(t0x, t3x));
    lemma_ortho_column_sum(t0x, t3x, xi, vp.x as int, vwi);
    let cx = spec_add(t0x, t3x)->Some_0;
    // y column: the first term is zero, so the scale term may pass
    // through unchanged or collapse to the lone zero.
    let e5 = projection.e[5];
    let e13 = projection.e[13];
    let t1y = Rational { num: (2 * yi) as i64, den: vp.height as i64 };
    assert(spec_mul(v.y, e5) == Some(t1y)) by {
        assert(v.y.num * e5.num == y * 2);
        assert(v.y.den * e5.den == 1 * e5.den);
    }
    let t3y = Rational { num: tyn as i64, den: vp.height as i64 };
    assert(spec_mul(v.w, e13) == Some(t3y)) by {
        assert(v.w.num * e13.num == 1 * e13.num);
        assert(v.w.den * e13.den == 1 * e13.den);
    }
    let s1y = if yi == 0 {
        Rational { num: 0i64, den: 1i64 }
    } else {
        t1y
    };
    assert(spec_dot_col(projection, v, 1) == spec_add(s1y, t3y));
    lemma_ortho_column_sum(s1y, t3y, yi, vp.y as int, vhi);
    let cy = spec_add(s1y, t3y)->Some_0;
    let clipv = Vec4 { x: cx, y: cy, z: v.z, w: v.w };
    assert(spec_mat_vec_mul(projection, v) == Some(clipv));
    // Perspective divide by w == 1 changes nothing.
    assert(spec_div(cx, clipv.w) == Some(cx)) by {
        assert(cx.num * clipv.w.den == cx.num * 1);
        assert(cx.den * clipv.w.num == cx.den * 1);
    }
    assert(spec_div(cy, clipv.w) == Some(cy)) by {
        assert(cy.num * clipv.w.den == cy.num * 1);
        assert(cy.den * clipv.w.num == cy.den * 1);
    }
    // Viewport mapping lands exactly on the panel coordinates again.
    lemma_viewport_map_exact(cx, vp.x, vp.width, xi);
    lemma_viewport_map_exact(cy, vp.y, vp.height, yi);
    let sxr = spec_viewport_map(cx, vp.x, vp.width)->Some_0;
    let syr = spec_viewport_map(cy, vp.y, vp.height)->Some_0;
    lemma_trunc_of_int_value(sxr, xi);
    lemma_trunc_of_int_value(syr, yi);
    assert(spec_panel_to_screen(x, y, modelview, projection, vp) == Some(
        (x as i32, y as i32),
    ));
    // The inverse mapping recovers the point exactly.
    lemma_unmap_axis_exact(x, vp.x, vp.width);
    lemma_unmap_axis_exact(y, vp.y, vp.height);
    let px = spec_unmap_axis(x, vp.x, vp.width)->Some_0;
    let py = spec_unmap_axis(y, vp.y, vp.height)->Some_0;
    lemma_trunc_of_int_value(px, xi);
    lemma_trunc_of_int_value(py, yi);
    assert(spec_screen_to_panel_ortho(x, y, vp) == Some((x, y)));
}

} // verus!
