//! Subclasses that extend the Desktop Window Manager frame into the client
//! area.
use vstd::prelude::*;
use crate::metrics::{DwmMargins, Margins};
use crate::win32::{TRUE, WM_ACTIVATE};

verus! {

/// A request to extend the frame of `window` into its client area by
/// `margins` (`DwmExtendFrameIntoClientArea`).
#[derive(Clone, Copy, Debug, PartialEq, Eq, Structural)]
pub struct ExtendFrameRequest {
    pub window: usize,
    pub margins: DwmMargins,
}

/// A call the host makes on a window when a subclass is installed.
#[derive(Clone, Copy, Debug, PartialEq, Eq, Structural)]
pub enum WindowRequest {
    /// Install the window procedure on `window` under the identifier `id`
    /// (`SetWindowSubclass`).
    InstallSubclass { window: usize, id: usize },
    /// Extend the frame into the client area.
    ExtendFrame(ExtendFrameRequest),
    /// Tell `window` that its frame changed, keeping its place and size
    /// (`SetWindowPos` with `SWP_FRAMECHANGED` at its current rectangle).
    FrameChange(usize),
}

/// The frame is extended again when the window is activated while the
/// Desktop Window Manager composes: the message is `WM_ACTIVATE`, the
/// composition query succeeded (`hr` not negative) and reported `TRUE`.
pub open spec fn spec_extends_on(message: u32, hr: i32, enabled: i32) -> bool {
    message == WM_ACTIVATE && hr >= 0 && enabled == TRUE
}

/// Decides whether a message makes the frame be extended again; `hr` and
/// `enabled` are the answer of `DwmIsCompositionEnabled`.
pub fn extends_on_activation(message: u32, hr: i32, enabled: i32) -> (b: bool)
    ensures
        b == spec_extends_on(message, hr, enabled),
{
    message == WM_ACTIVATE && crate::win32::succeeded(hr) && enabled == TRUE
}

/// The margins in Desktop Window Manager layout, as a spec value.
pub open spec fn spec_dwm(m: Margins) -> DwmMargins {
    DwmMargins {
        cx_left_width: m.left,
        cx_right_width: m.right,
        cy_top_height: m.top,
        cy_bottom_height: m.bottom,
    }
}

/// A subclass that keeps the frame of its window extended by margins that
/// can be changed later.
#[derive(Clone, Copy, Debug)]
pub struct DwmFrame {
    /// The window the subclass is attached to, once attached.
    pub window: Option<usize>,
    /// The margins by which the frame is extended.
    pub margins: Margins,
}

impl DwmFrame {
    /// What the window procedure asks for: on an activation while the
    /// Desktop Window Manager composes, extending the frame of `h_wnd` by
    /// the current margins; nothing otherwise.
    pub open spec fn spec_wnd_proc(self, h_wnd: usize, message: u32, hr: i32, enabled: i32) -> Option<ExtendFrameRequest> {
        if spec_extends_on(message, hr, enabled) {
            Some(ExtendFrameRequest { window: h_wnd, margins: spec_dwm(self.margins) })
        } else {
            None
        }
    }

    /// A subclass that extends the frame by `margins`.
    pub fn extend(margins: Margins) -> (f: Self)
        ensures
            f.window is None,
            f.margins == margins,
    {
        DwmFrame { window: None, margins }
    }

    /// A subclass that renders the whole window as a sheet of glass.
    pub fn sheet() -> (f: Self)
        ensures
            f.window is None,
            f.margins.is_sheet(),
    {
        Self::extend(Margins::sheet())
    }

    /// Replaces the margins of an attached subclass, which asks for its
    /// window to be extended by the new margins at once.
    pub fn set_margins(&mut self, margins: Margins) -> (req: ExtendFrameRequest)
        requires
            old(self).window is Some,
        ensures
            final(self).margins == margins,
            final(self).window == old(self).window,
            req == (ExtendFrameRequest { window: old(self).window->0, margins: spec_dwm(margins) }),
            req.margins.cx_left_width == margins.left,
            req.margins.cx_right_width == margins.right,
            req.margins.cy_top_height == margins.top,
            req.margins.cy_bottom_height == margins.bottom,
    {
        self.margins = margins;
        let w = match self.window {
            Some(w) => w,
            None => 0,
        };
        ExtendFrameRequest { window: w, margins: margins.winapi() }
    }

    /// Records the window the subclass was attached to, and asks for its
    /// frame to be extended.
    pub fn init(&mut self, h_wnd: usize) -> (req: ExtendFrameRequest)
        ensures
            final(self).window == Some(h_wnd),
            final(self).margins == old(self).margins,
            req == (ExtendFrameRequest { window: h_wnd, margins: spec_dwm(old(self).margins) }),
            req.margins.cx_left_width == old(self).margins.left,
            req.margins.cx_right_width == old(self).margins.right,
            req.margins.cy_top_height == old(self).margins.top,
            req.margins.cy_bottom_height == old(self).margins.bottom,
    {
        self.window = Some(h_wnd);
        ExtendFrameRequest { window: h_wnd, margins: self.margins.winapi() }
    }

    /// The window procedure: whether to extend the frame again before
    /// passing the message on to the default procedure; `hr` and `enabled`
    /// are the answer of `DwmIsCompositionEnabled`.
    pub fn wnd_proc(&self, h_wnd: usize, message: u32, hr: i32, enabled: i32) -> (req: Option<ExtendFrameRequest>)
        ensures
            req == self.spec_wnd_proc(h_wnd, message, hr, enabled),
            req is Some <==> (message == 0x0006 && hr >= 0 && enabled == 1),
            req matches Some(r) ==> r.window == h_wnd && r.margins.cx_left_width == self.margins.left
                && r.margins.cx_right_width == self.margins.right && r.margins.cy_top_height == self.margins.top
                && r.margins.cy_bottom_height == self.margins.bottom,
    {
        if extends_on_activation(message, hr, enabled) {
            Some(ExtendFrameRequest { window: h_wnd, margins: self.margins.winapi() })
        } else {
            None
        }
    }
}

/// After the margins of a frame are replaced, every later activation while
/// the Desktop Window Manager composes extends the frame by the new margins,
/// and no other message extends it.
pub proof fn lemma_activation_uses_new_margins(f: DwmFrame, m: Margins, h_wnd: usize, message: u32, hr: i32, enabled: i32)
    ensures
        (DwmFrame { margins: m, ..f }).spec_wnd_proc(h_wnd, message, hr, enabled)
            == (if message == WM_ACTIVATE && hr >= 0 && enabled == TRUE {
                Some(ExtendFrameRequest { window: h_wnd, margins: spec_dwm(m) })
            } else {
                None
            }),
{
}

/// A subclass that extends the frame by fixed margins.
#[derive(Clone, Copy, Debug, PartialEq, Eq, Structural)]
pub struct ExtendFrame {
    pub left: i32,
    pub top: i32,
    pub right: i32,
    pub bottom: i32,
}

impl Default for ExtendFrame {
    /// No extension on any side.
    fn default() -> (f: Self)
        ensures
            f == (ExtendFrame { left: 0, top: 0, right: 0, bottom: 0 }),
    {
        ExtendFrame { left: 0, top: 0, right: 0, bottom: 0 }
    }
}

impl ExtendFrame {
    /// The margins in Desktop Window Manager layout, as a spec value.
    pub open spec fn spec_margins(self) -> DwmMargins {
        DwmMargins {
            cx_left_width: self.left,
            cx_right_width: self.right,
            cy_top_height: self.top,
            cy_bottom_height: self.bottom,
        }
    }

    /// The whole window as a sheet of glass: -1 on every side.
    pub fn sheet() -> (f: Self)
        ensures
            f == (ExtendFrame { left: -1i32, top: -1i32, right: -1i32, bottom: -1i32 }),
    {
        ExtendFrame { left: -1, top: -1, right: -1, bottom: -1 }
    }

    /// A subclass that extends the frame by `margins`.
    pub fn margins(margins: Margins) -> (f: Self)
        ensures
            f.left == margins.left,
            f.top == margins.top,
            f.right == margins.right,
            f.bottom == margins.bottom,
    {
        ExtendFrame { left: margins.left, top: margins.top, right: margins.right, bottom: margins.bottom }
    }

    /// The margins in Desktop Window Manager layout.
    pub fn dwm_margins(&self) -> (m: DwmMargins)
        ensures
            m == self.spec_margins(),
            m.cx_left_width == self.left,
            m.cx_right_width == self.right,
            m.cy_top_height == self.top,
            m.cy_bottom_height == self.bottom,
    {
        DwmMargins {
            cx_left_width: self.left,
            cx_right_width: self.right,
            cy_top_height: self.top,
            cy_bottom_height: self.bottom,
        }
    }

    /// The window procedure: whether to extend the frame again before
    /// passing the message on to the default procedure.
    pub fn wnd_proc(&self, h_wnd: usize, message: u32, hr: i32, enabled: i32) -> (req: Option<ExtendFrameRequest>)
        ensures
            req == (if spec_extends_on(message, hr, enabled) {
                Some(ExtendFrameRequest { window: h_wnd, margins: self.spec_margins() })
            } else {
                None
            }),
            req matches Some(r) ==> r.window == h_wnd && r.margins.cx_left_width == self.left
                && r.margins.cx_right_width == self.right && r.margins.cy_top_height == self.top
                && r.margins.cy_bottom_height == self.bottom,
    {
        if extends_on_activation(message, hr, enabled) {
            Some(ExtendFrameRequest { window: h_wnd, margins: self.dwm_margins() })
        } else {
            None
        }
    }

    /// On attachment, the frame of the window is extended.
    pub fn init(&self, h_wnd: usize) -> (req: ExtendFrameRequest)
        ensures
            req == (ExtendFrameRequest { window: h_wnd, margins: self.spec_margins() }),
            req.margins.cx_left_width == self.left,
            req.margins.cx_right_width == self.right,
            req.margins.cy_top_height == self.top,
            req.margins.cy_bottom_height == self.bottom,
    {
        ExtendFrameRequest { window: h_wnd, margins: self.dwm_margins() }
    }
}

} // verus!

verus! {

/// The Desktop Window Manager margins of a frame carry each side unchanged,
/// negative values included: the left width is the left margin, the right
/// width the right margin, the top height the top margin, the bottom height
/// the bottom margin. So a frame attached, moved to new margins, or
/// activated always asks for exactly its margins on the sides they name.
pub proof fn lemma_dwm_margins_keep_sides(f: DwmFrame, m: Margins, h_wnd: usize, message: u32, hr: i32, enabled: i32)
    ensures
        spec_dwm(m).cx_left_width == m.left,
        spec_dwm(m).cx_right_width == m.right,
        spec_dwm(m).cy_top_height == m.top,
        spec_dwm(m).cy_bottom_height == m.bottom,
        f.spec_wnd_proc(h_wnd, message, hr, enabled) matches Some(r) ==> {
            &&& r.window == h_wnd
            &&& r.margins.cx_left_width == f.margins.left
            &&& r.margins.cx_right_width == f.margins.right
            &&& r.margins.cy_top_height == f.margins.top
            &&& r.margins.cy_bottom_height == f.margins.bottom
        },
        (f.spec_wnd_proc(h_wnd, message, hr, enabled) is Some) <==> (message == 0x0006 && hr >= 0 && enabled == 1),
{
}

/// The margins an [`ExtendFrame`] asks for are its four fields, unchanged
/// for every value, negative ones included; the sheet asks for -1 on every
/// side, the whole window as glass.
pub proof fn lemma_extend_frame_keeps_fields(e: ExtendFrame)
    ensures
        e.spec_margins().cx_left_width == e.left,
        e.spec_margins().cx_right_width == e.right,
        e.spec_margins().cy_top_height == e.top,
        e.spec_margins().cy_bottom_height == e.bottom,
        (ExtendFrame { left: -1i32, top: -1i32, right: -1i32, bottom: -1i32 }).spec_margins()
            == (DwmMargins { cx_left_width: -1i32, cx_right_width: -1i32, cy_top_height: -1i32, cy_bottom_height: -1i32 }),
{
}

} // verus!
