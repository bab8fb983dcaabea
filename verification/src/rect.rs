//! Window rectangles and the arithmetic the frames perform on them.
use vstd::prelude::*;
use crate::metrics::Margins;

verus! {

/// A rectangle in screen coordinates, given by its edges (Win32 `RECT`).
#[derive(Clone, Copy, Debug, PartialEq, Eq, Structural)]
pub struct Rect {
    pub left: i32,
    pub top: i32,
    pub right: i32,
    pub bottom: i32,
}

/// Whether a value is a 32-bit signed integer.
pub open spec fn fits_i32(v: int) -> bool {
    i32::MIN <= v <= i32::MAX
}

impl Rect {
    /// The edges moved outwards by the margins: left and top decrease,
    /// right and bottom increase.
    pub open spec fn spec_expanded(self, m: Margins) -> Rect {
        Rect {
            left: (self.left - m.left) as i32,
            top: (self.top - m.top) as i32,
            right: (self.right + m.right) as i32,
            bottom: (self.bottom + m.bottom) as i32,
        }
    }

    /// The edges moved inwards by the margins: left and top increase,
    /// right and bottom decrease.
    pub open spec fn spec_inset(self, m: Margins) -> Rect {
        Rect {
            left: (self.left + m.left) as i32,
            top: (self.top + m.top) as i32,
            right: (self.right - m.right) as i32,
            bottom: (self.bottom - m.bottom) as i32,
        }
    }

    /// Moving every edge outwards by the margins stays within `i32`.
    pub open spec fn can_expand(self, m: Margins) -> bool {
        &&& fits_i32(self.left - m.left)
        &&& fits_i32(self.top - m.top)
        &&& fits_i32(self.right + m.right)
        &&& fits_i32(self.bottom + m.bottom)
    }

    /// Moving every edge inwards by the margins stays within `i32`.
    pub open spec fn can_inset(self, m: Margins) -> bool {
        &&& fits_i32(self.left + m.left)
        &&& fits_i32(self.top + m.top)
        &&& fits_i32(self.right - m.right)
        &&& fits_i32(self.bottom - m.bottom)
    }

    /// The rectangle grown by the margins on each side.
    pub fn expanded_by(&self, m: &Margins) -> (r: Rect)
        requires
            self.can_expand(*m),
        ensures
            r.left == self.left - m.left,
            r.top == self.top - m.top,
            r.right == self.right + m.right,
            r.bottom == self.bottom + m.bottom,
            r == self.spec_expanded(*m),
    {
        Rect {
            left: self.left - m.left,
            top: self.top - m.top,
            right: self.right + m.right,
            bottom: self.bottom + m.bottom,
        }
    }

    /// The rectangle shrunk by the margins on each side.
    pub fn inset_by(&self, m: &Margins) -> (r: Rect)
        requires
            self.can_inset(*m),
        ensures
            r.left == self.left + m.left,
            r.top == self.top + m.top,
            r.right == self.right - m.right,
            r.bottom == self.bottom - m.bottom,
            r == self.spec_inset(*m),
    {
        Rect {
            left: self.left + m.left,
            top: self.top + m.top,
            right: self.right - m.right,
            bottom: self.bottom - m.bottom,
        }
    }

    /// Whether the width and height of the rectangle fit in `i32`.
    pub open spec fn has_i32_extent(self) -> bool {
        fits_i32(self.right - self.left) && fits_i32(self.bottom - self.top)
    }

    /// Whether the width and height fit in `i32`, so that
    /// [`Rect::frame_change_position`] may be called.
    pub fn extent_fits(&self) -> (ok: bool)
        ensures
            ok == self.has_i32_extent(),
    {
        let w: i64 = self.right as i64 - self.left as i64;
        let h: i64 = self.bottom as i64 - self.top as i64;
        i32::MIN as i64 <= w && w <= i32::MAX as i64 && i32::MIN as i64 <= h && h <= i32::MAX
            as i64
    }

    /// The position and size with which a window whose rectangle is `self`
    /// is told that its frame changed (`SetWindowPos` with
    /// `SWP_FRAMECHANGED`): same place, same size.
    pub fn frame_change_position(&self) -> (p: WindowPosition)
        requires
            self.has_i32_extent(),
        ensures
            p.x == self.left,
            p.y == self.top,
            p.cx == self.right - self.left,
            p.cy == self.bottom - self.top,
    {
        WindowPosition {
            x: self.left,
            y: self.top,
            cx: self.right - self.left,
            cy: self.bottom - self.top,
        }
    }
}

/// A window position and size as `SetWindowPos` takes them.
#[derive(Clone, Copy, Debug, PartialEq, Eq, Structural)]
pub struct WindowPosition {
    pub x: i32,
    pub y: i32,
    pub cx: i32,
    pub cy: i32,
}

/// Insetting a rectangle by some margins and then expanding it by the same
/// margins gives back the rectangle.
pub proof fn lemma_expand_undoes_inset(r: Rect, m: Margins)
    requires
        r.can_inset(m),
    ensures
        r.spec_inset(m).can_expand(m),
        r.spec_inset(m).spec_expanded(m) == r,
{
}

/// Expanding a rectangle by some margins and then insetting it by the same
/// margins gives back the rectangle.
pub proof fn lemma_inset_undoes_expand(r: Rect, m: Margins)
    requires
        r.can_expand(m),
    ensures
        r.spec_expanded(m).can_inset(m),
        r.spec_expanded(m).spec_inset(m) == r,
{
}

/// A position computed for a frame change reproduces the rectangle it was
/// computed from: the window keeps its place and size.
pub proof fn lemma_frame_change_keeps_rect(r: Rect, p: WindowPosition)
    requires
        r.has_i32_extent(),
        p.x == r.left,
        p.y == r.top,
        p.cx == r.right - r.left,
        p.cy == r.bottom - r.top,
    ensures
        p.x + p.cx == r.right,
        p.y + p.cy == r.bottom,
{
}

} // verus!
