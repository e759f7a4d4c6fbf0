//! Plain window-facing types: decoration, layer and positioning
//! vocabularies with their host codes, resizing limits, font style
//! selection, and the placement arithmetic for a new window.
//!
//! The host SDK speaks in integer codes; each vocabulary type knows its
//! own code, so the host-facing layer never hard-codes a number.

use crate::geometry::Rect;
use vstd::prelude::*;

verus! {

/// How the host decorates a window.
#[derive(Clone, Copy, Debug, PartialEq, Eq, Structural)]
pub enum Decoration {
    Bare,
    RoundRectangle,
    SelfDecorated,
    SelfDecoratedResizable,
}

impl Decoration {
    /// The host SDK's code for this decoration.
    pub fn code(self) -> (c: u32)
        ensures
            c == (match self {
                Decoration::Bare => 0u32,
                Decoration::RoundRectangle => 1u32,
                Decoration::SelfDecorated => 2u32,
                Decoration::SelfDecoratedResizable => 3u32,
            }),
    {
        match self {
            Decoration::Bare => 0,
            Decoration::RoundRectangle => 1,
            Decoration::SelfDecorated => 2,
            Decoration::SelfDecoratedResizable => 3,
        }
    }
}

/// The stacking layer a window lives in.
#[derive(Clone, Copy, Debug, PartialEq, Eq, Structural)]
pub enum Layer {
    FlightOverlay,
    FloatingWindows,
    Modal,
    GrowlNotifications,
}

impl Layer {
    /// The host SDK's code for this layer.
    pub fn code(self) -> (c: u32)
        ensures
            c == (match self {
                Layer::FlightOverlay => 0u32,
                Layer::FloatingWindows => 1u32,
                Layer::Modal => 2u32,
                Layer::GrowlNotifications => 3u32,
            }),
    {
        match self {
            Layer::FlightOverlay => 0,
            Layer::FloatingWindows => 1,
            Layer::Modal => 2,
            Layer::GrowlNotifications => 3,
        }
    }
}

/// How the host positions a window.
#[derive(Clone, Copy, Debug, PartialEq, Eq, Structural)]
pub enum PositioningMode {
    Free,
    CenterOnMonitor,
    FullScreenOnMonitor,
    FullScreenOnAllMonitors,
    PopOut,
    VR,
}

impl PositioningMode {
    /// The host SDK's code for this positioning mode.
    pub fn code(self) -> (c: u32)
        ensures
            c == (match self {
                PositioningMode::Free => 0u32,
                PositioningMode::CenterOnMonitor => 1u32,
                PositioningMode::FullScreenOnMonitor => 2u32,
                PositioningMode::FullScreenOnAllMonitors => 3u32,
                PositioningMode::PopOut => 4u32,
                PositioningMode::VR => 5u32,
            }),
    {
        match self {
            PositioningMode::Free => 0,
            PositioningMode::CenterOnMonitor => 1,
            PositioningMode::FullScreenOnMonitor => 2,
            PositioningMode::FullScreenOnAllMonitors => 3,
            PositioningMode::PopOut => 4,
            PositioningMode::VR => 5,
        }
    }
}

/// The positioning mode a window is currently in, decided from the two
/// flags the host reports: VR wins over popped-out, and a window that
/// is neither is free.
pub fn positioning_mode(in_vr: bool, popped_out: bool) -> (m: PositioningMode)
    ensures
        m == (if in_vr {
            PositioningMode::VR
        } else if popped_out {
            PositioningMode::PopOut
        } else {
            PositioningMode::Free
        }),
{
    if in_vr {
        PositioningMode::VR
    } else if popped_out {
        PositioningMode::PopOut
    } else {
        PositioningMode::Free
    }
}

/// Size limits a resizable window is held to, in pixels.
#[derive(Clone, Copy, Debug, PartialEq, Eq, Structural)]
pub struct ResizingLimits {
    pub min_width: i32,
    pub min_height: i32,
    pub max_width: i32,
    pub max_height: i32,
}

impl ResizingLimits {
    pub fn new(min_width: i32, min_height: i32, max_width: i32, max_height: i32) -> (r: Self)
        ensures
            r.min_width == min_width,
            r.min_height == min_height,
            r.max_width == max_width,
            r.max_height == max_height,
    {
        Self { min_width, min_height, max_width, max_height }
    }
}

/// Which font styles to load into the UI atlas.
#[derive(Clone, Copy, Debug, PartialEq, Eq, Structural)]
pub struct FontStyles {
    pub regular: bool,
    pub bold: bool,
    pub italic: bool,
    pub bold_italic: bool,
}

impl Default for FontStyles {
    /// Only the regular style.
    fn default() -> (s: Self)
        ensures
            s == (FontStyles { regular: true, bold: false, italic: false, bold_italic: false }),
    {
        FontStyles { regular: true, bold: false, italic: false, bold_italic: false }
    }
}

/// Place a new window inside the host's screen bounds: `x` to the
/// right of the left bound, `y` down from the top bound (the screen is
/// bottom-up), spanning `width × height`.  `None` when a bound leaves
/// the 32-bit pixel range.
pub open spec fn spec_window_rect(bounds: Rect, x: u32, y: u32, width: u32, height: u32) -> Option<
    Rect,
> {
    let left = bounds.left + x;
    let top = bounds.top - y;
    let right = left + width;
    let bottom = top - height;
    if i32::MIN <= left <= i32::MAX && i32::MIN <= top <= i32::MAX && i32::MIN <= right
        <= i32::MAX && i32::MIN <= bottom <= i32::MAX {
        Some(Rect { left: left as i32, top: top as i32, right: right as i32, bottom: bottom as i32 })
    } else {
        None
    }
}

pub fn window_rect(bounds: &Rect, x: u32, y: u32, width: u32, height: u32) -> (r: Option<Rect>)
    ensures
        r == spec_window_rect(*bounds, x, y, width, height),
{
    let left = bounds.left as i64 + x as i64;
    let top = bounds.top as i64 - y as i64;
    let right = left + width as i64;
    let bottom = top - height as i64;
    let lo = i32::MIN as i64;
    let hi = i32::MAX as i64;
    if lo <= left && left <= hi && lo <= top && top <= hi && lo <= right && right <= hi && lo
        <= bottom && bottom <= hi {
        Some(
            Rect {
                left: left as i32,
                top: top as i32,
                right: right as i32,
                bottom: bottom as i32,
            },
        )
    } else {
        None
    }
}

} // verus!
