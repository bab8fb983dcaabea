//! Margins, frame metrics and the values handed to the Desktop Window
//! Manager.
use vstd::prelude::*;
use crate::rect::{Rect, fits_i32};

verus! {

/// Distances from each edge of a window, in pixels.
///
/// A negative margin on every side (see [`Margins::sheet`]) asks the
/// Desktop Window Manager to render the whole window as a sheet of glass.
#[derive(Clone, Copy, Debug, PartialEq, Eq, Structural)]
pub struct Margins {
    pub left: i32,
    pub top: i32,
    pub right: i32,
    pub bottom: i32,
}

impl Default for Margins {
    /// No margin on any side.
    fn default() -> (m: Self)
        ensures
            m == (Margins { left: 0, top: 0, right: 0, bottom: 0 }),
    {
        Margins { left: 0, top: 0, right: 0, bottom: 0 }
    }
}

impl Margins {
    /// Whether every side has the margin -1, which extends the frame over
    /// the whole window.
    pub open spec fn is_sheet(self) -> bool {
        self.left == -1 && self.top == -1 && self.right == -1 && self.bottom == -1
    }

    /// The "sheet of glass" margins: -1 on every side.
    pub fn sheet() -> (m: Self)
        ensures
            m.is_sheet(),
    {
        Margins { left: -1, top: -1, right: -1, bottom: -1 }
    }

    /// The margins in the layout of the Desktop Window Manager (`MARGINS`):
    /// widths of the left and right sides, heights of the top and bottom.
    pub fn winapi(&self) -> (d: DwmMargins)
        ensures
            d.cx_left_width == self.left,
            d.cx_right_width == self.right,
            d.cy_top_height == self.top,
            d.cy_bottom_height == self.bottom,
    {
        DwmMargins {
            cx_left_width: self.left,
            cx_right_width: self.right,
            cy_top_height: self.top,
            cy_bottom_height: self.bottom,
        }
    }
}

/// Margins as `DwmExtendFrameIntoClientArea` takes them (`MARGINS`).
#[derive(Clone, Copy, Debug, PartialEq, Eq, Structural)]
pub struct DwmMargins {
    pub cx_left_width: i32,
    pub cx_right_width: i32,
    pub cy_top_height: i32,
    pub cy_bottom_height: i32,
}

/// The size of the standard window frame: the height of the title bar and
/// the width of the sizing border on each side.
#[derive(Clone, Copy, Debug, PartialEq, Eq, Structural)]
pub struct WindowFrameMetrics {
    pub titlebar: i32,
    pub border: Margins,
}

impl Default for WindowFrameMetrics {
    /// No title bar and no border.
    fn default() -> (m: Self)
        ensures
            m.titlebar == 0,
            m.border == (Margins { left: 0, top: 0, right: 0, bottom: 0 }),
    {
        WindowFrameMetrics { titlebar: 0, border: Margins::default() }
    }
}

/// The window style of a frame with sizing border but no title bar:
/// `WS_OVERLAPPEDWINDOW` without `WS_CAPTION`.
pub fn border_only_style() -> (s: u32)
    ensures
        s == crate::win32::WS_OVERLAPPEDWINDOW & !crate::win32::WS_CAPTION,
        s == 0x000F_0000,
{
    let s: u32 = crate::win32::WS_OVERLAPPEDWINDOW & !crate::win32::WS_CAPTION;
    assert(0x00CF_0000u32 & !0x00C0_0000u32 == 0x000F_0000u32) by (bit_vector);
    s
}

/// The full overlapped-window style, title bar included.
pub fn captioned_style() -> (s: u32)
    ensures
        s == crate::win32::WS_OVERLAPPEDWINDOW,
{
    crate::win32::WS_OVERLAPPEDWINDOW
}

impl WindowFrameMetrics {
    /// Whether the metrics can be read off the two adjusted rectangles
    /// without overflow: the negated edges fit in `i32`.
    pub open spec fn readable_from(border: Rect, with_titlebar: Rect) -> bool {
        &&& fits_i32(-border.left)
        &&& fits_i32(-border.top)
        &&& fits_i32(-with_titlebar.top)
    }

    /// Whether [`WindowFrameMetrics::from_adjusted_rects`] may be called on
    /// these rectangles.
    pub fn can_read(border: &Rect, with_titlebar: &Rect) -> (ok: bool)
        ensures
            ok == Self::readable_from(*border, *with_titlebar),
    {
        border.left != i32::MIN && border.top != i32::MIN && with_titlebar.top != i32::MIN
    }

    /// The metrics read off the two adjusted rectangles: the title bar is
    /// how far the full frame reaches above the client area, the border how
    /// far the frame without caption reaches out on each side.
    pub open spec fn spec_from_adjusted(border: Rect, with_titlebar: Rect) -> WindowFrameMetrics {
        WindowFrameMetrics {
            titlebar: (-with_titlebar.top) as i32,
            border: Margins {
                left: (-border.left) as i32,
                top: (-border.top) as i32,
                right: border.right,
                bottom: border.bottom,
            },
        }
    }

    /// Reads the frame metrics off the rectangles that `AdjustWindowRectEx`
    /// makes of an empty rectangle: `border` for the frame without title
    /// bar, `with_titlebar` for the full frame. The empty rectangle grows
    /// outwards, so the left and top edges are negated.
    pub fn from_adjusted_rects(border: &Rect, with_titlebar: &Rect) -> (m: WindowFrameMetrics)
        requires
            Self::readable_from(*border, *with_titlebar),
        ensures
            m.titlebar == -with_titlebar.top,
            m.border.left == -border.left,
            m.border.top == -border.top,
            m.border.right == border.right,
            m.border.bottom == border.bottom,
            m == Self::spec_from_adjusted(*border, *with_titlebar),
    {
        WindowFrameMetrics {
            titlebar: -with_titlebar.top,
            border: Margins {
                left: -border.left,
                top: -border.top,
                right: border.right,
                bottom: border.bottom,
            },
        }
    }
}

} // verus!
