//! Axis-aligned rectangle primitive.
//!
//! A rectangle is four integer bounds in some coordinate space.  Hosts use
//! both screen conventions — `top` may be numerically above or below
//! `bottom` — so the primitive never assumes an ordering and only ever
//! reports magnitudes.

use vstd::prelude::*;

verus! {

/// An axis-aligned rectangle, convention-agnostic: neither `left <= right`
/// nor `bottom <= top` is assumed.
#[derive(Clone, Copy, Debug, PartialEq, Eq, Structural)]
pub struct Rect {
    pub left: i32,
    pub top: i32,
    pub right: i32,
    pub bottom: i32,
}

impl Rect {
    /// Magnitude of the horizontal extent.
    pub open spec fn spec_width(self) -> nat {
        vstd::math::abs(self.right - self.left)
    }

    /// Magnitude of the vertical extent.
    pub open spec fn spec_height(self) -> nat {
        vstd::math::abs(self.top - self.bottom)
    }

    pub fn new(left: i32, top: i32, right: i32, bottom: i32) -> (r: Self)
        ensures
            r.left == left,
            r.top == top,
            r.right == right,
            r.bottom == bottom,
    {
        Self { left, top, right, bottom }
    }

    /// Absolute difference of the horizontal bounds; well defined whether or
    /// not `left < right`.
    pub fn width(&self) -> (w: u32)
        ensures
            w == self.spec_width(),
    {
        let d: i64 = self.right as i64 - self.left as i64;
        if d < 0 {
            (-d) as u32
        } else {
            d as u32
        }
    }

    /// Absolute difference of the vertical bounds; well defined whether or
    /// not `bottom < top`.
    pub fn height(&self) -> (h: u32)
        ensures
            h == self.spec_height(),
    {
        let d: i64 = self.top as i64 - self.bottom as i64;
        if d < 0 {
            (-d) as u32
        } else {
            d as u32
        }
    }

    /// The `[width, height]` pair fed to a UI display-size field.
    pub fn size(&self) -> (s: (u32, u32))
        ensures
            s.0 == self.spec_width(),
            s.1 == self.spec_height(),
    {
        (self.width(), self.height())
    }
}

/// Whatever the bound ordering, the reported extents are magnitudes: they
/// are never negative.
pub proof fn lemma_extents_nonnegative(r: Rect)
    ensures
        r.spec_width() >= 0,
        r.spec_height() >= 0,
{
}

} // verus!
