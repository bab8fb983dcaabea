//! A subclass that moves the edges of the client area by margins, taking
//! over part of the standard frame.
use vstd::prelude::*;
use crate::dwm_frame::WindowRequest;
use crate::metrics::Margins;
use crate::rect::Rect;
use crate::win32::{FALSE, TRUE, WM_CREATE, WM_NCCALCSIZE};

verus! {

/// What the window procedure of a [`ClientArea`] does with a message.
#[derive(Clone, Copy, Debug, PartialEq, Eq, Structural)]
pub enum ClientAreaPlan {
    /// Tell the window its frame changed, then pass the message on to the
    /// default procedure.
    FrameChange,
    /// Replace the proposed window rectangle of the `NCCALCSIZE_PARAMS`
    /// block with [`ClientArea::proposed_rect`] of it, then pass the message
    /// on to the default procedure.
    ExpandProposed,
    /// Replace the rectangle that `LPARAM` points to with
    /// [`ClientArea::client_rect`] of the window rectangle and return 0.
    InsetWindowRect,
    /// Pass the message on to the default procedure.
    PassOn,
}

/// The plan for a message: a frame change on creation; on a client-size
/// calculation, a `WPARAM` of `TRUE` asks for the proposed rectangle to be
/// adjusted and `FALSE` for the client rectangle to be computed; nothing
/// for any other message.
pub open spec fn spec_client_area_plan(message: u32, w_param: usize) -> ClientAreaPlan {
    if message == WM_CREATE {
        ClientAreaPlan::FrameChange
    } else if message == WM_NCCALCSIZE && w_param as i32 == TRUE {
        ClientAreaPlan::ExpandProposed
    } else if message == WM_NCCALCSIZE && w_param as i32 == FALSE {
        ClientAreaPlan::InsetWindowRect
    } else {
        ClientAreaPlan::PassOn
    }
}

/// A subclass whose client area reaches `margins` further out than the
/// standard one.
#[derive(Clone, Copy, Debug)]
pub struct ClientArea {
    /// The window the subclass is attached to, once attached.
    pub window: Option<usize>,
    /// How far the client area reaches into the frame on each side.
    pub margins: Margins,
}

impl Default for ClientArea {
    /// Not attached, with no margins.
    fn default() -> (c: Self)
        ensures
            c.window is None,
            c.margins == (Margins { left: 0, top: 0, right: 0, bottom: 0 }),
    {
        ClientArea { window: None, margins: Margins::default() }
    }
}

impl ClientArea {
    /// A subclass with the given margins.
    pub fn margins(margins: Margins) -> (c: Self)
        ensures
            c.window is None,
            c.margins == margins,
    {
        ClientArea { window: None, margins }
    }

    /// Replaces the margins of an attached subclass and returns its window,
    /// which must then be told that its frame changed.
    pub fn set_margins(&mut self, margins: Margins) -> (w: usize)
        requires
            old(self).window is Some,
        ensures
            final(self).margins == margins,
            final(self).window == old(self).window,
            w == old(self).window->0,
    {
        self.margins = margins;
        match self.window {
            Some(w) => w,
            None => 0,
        }
    }

    /// Records the window the subclass was attached to; the window is then
    /// told that its frame changed.
    pub fn init(&mut self, h_wnd: usize) -> (reqs: Vec<WindowRequest>)
        ensures
            final(self).window == Some(h_wnd),
            final(self).margins == old(self).margins,
            reqs@ == seq![WindowRequest::FrameChange(h_wnd)],
    {
        self.window = Some(h_wnd);
        vec![WindowRequest::FrameChange(h_wnd)]
    }

    /// The window procedure: what to do with `message`.
    pub fn wnd_proc(&self, message: u32, w_param: usize) -> (p: ClientAreaPlan)
        ensures
            p == spec_client_area_plan(message, w_param),
            (p == ClientAreaPlan::FrameChange) <==> (message == 0x0001),
            message != 0x0001 && message != 0x0083 ==> p == ClientAreaPlan::PassOn,
            message == 0x0083 && w_param as i32 == 1 ==> p == ClientAreaPlan::ExpandProposed,
            message == 0x0083 && w_param as i32 == 0 ==> p == ClientAreaPlan::InsetWindowRect,
            message == 0x0083 && w_param as i32 != 0 && w_param as i32 != 1 ==> p == ClientAreaPlan::PassOn,
    {
        let b = crate::win32::bool_param(w_param);
        if message == WM_CREATE {
            ClientAreaPlan::FrameChange
        } else if message == WM_NCCALCSIZE && b == TRUE {
            ClientAreaPlan::ExpandProposed
        } else if message == WM_NCCALCSIZE && b == FALSE {
            ClientAreaPlan::InsetWindowRect
        } else {
            ClientAreaPlan::PassOn
        }
    }

    /// The proposed window rectangle grown by the margins, so that the
    /// default procedure carves the client area out of a larger rectangle.
    pub fn proposed_rect(&self, proposed: &Rect) -> (r: Rect)
        requires
            proposed.can_expand(self.margins),
        ensures
            r == proposed.spec_expanded(self.margins),
    {
        proposed.expanded_by(&self.margins)
    }

    /// The client rectangle of a window: its rectangle shrunk by the margins.
    pub fn client_rect(&self, window: &Rect) -> (r: Rect)
        requires
            window.can_inset(self.margins),
        ensures
            r == window.spec_inset(self.margins),
    {
        window.inset_by(&self.margins)
    }

    /// Whether [`ClientArea::proposed_rect`] may be called on `proposed`.
    pub fn can_expand(&self, proposed: &Rect) -> (ok: bool)
        ensures
            ok == proposed.can_expand(self.margins),
    {
        let m = &self.margins;
        fits(proposed.left as i64 - m.left as i64) && fits(proposed.top as i64 - m.top as i64)
            && fits(proposed.right as i64 + m.right as i64) && fits(proposed.bottom as i64
            + m.bottom as i64)
    }

    /// Whether [`ClientArea::client_rect`] may be called on `window`.
    pub fn can_inset(&self, window: &Rect) -> (ok: bool)
        ensures
            ok == window.can_inset(self.margins),
    {
        let m = &self.margins;
        fits(window.left as i64 + m.left as i64) && fits(window.top as i64 + m.top as i64)
            && fits(window.right as i64 - m.right as i64) && fits(window.bottom as i64
            - m.bottom as i64)
    }
}

/// Whether a 64-bit value fits in `i32`.
fn fits(v: i64) -> (ok: bool)
    ensures
        ok == crate::rect::fits_i32(v as int),
{
    i32::MIN as i64 <= v && v <= i32::MAX as i64
}

/// Which messages the client area acts on, over all messages and
/// parameters: only window creation (`WM_CREATE`, 1) makes a frame change;
/// only a client-size calculation (`WM_NCCALCSIZE`, 0x83) touches a
/// rectangle, the proposed one for a `WPARAM` of `TRUE` (1) and the client
/// one for `FALSE` (0); every other message passes on unchanged.
pub proof fn lemma_client_area_messages(message: u32, w_param: usize)
    ensures
        (spec_client_area_plan(message, w_param) == ClientAreaPlan::FrameChange) <==> (message == 0x0001),
        message != 0x0001 && message != 0x0083 ==> spec_client_area_plan(message, w_param) == ClientAreaPlan::PassOn,
        message == 0x0083 && w_param as i32 == 1 ==> spec_client_area_plan(message, w_param) == ClientAreaPlan::ExpandProposed,
        message == 0x0083 && w_param as i32 == 0 ==> spec_client_area_plan(message, w_param) == ClientAreaPlan::InsetWindowRect,
        message == 0x0083 && w_param as i32 != 0 && w_param as i32 != 1
            ==> spec_client_area_plan(message, w_param) == ClientAreaPlan::PassOn,
        (spec_client_area_plan(message, w_param) == ClientAreaPlan::ExpandProposed
            || spec_client_area_plan(message, w_param) == ClientAreaPlan::InsetWindowRect) ==> message == 0x0083,
{
}

/// The client rectangle computed from a window rectangle, grown again by the
/// margins, is the window rectangle: the client area and the frame of the
/// subclass fit together without gap or overlap.
pub proof fn lemma_client_rect_grows_back(c: ClientArea, window: Rect)
    requires
        window.can_inset(c.margins),
    ensures
        window.spec_inset(c.margins).can_expand(c.margins),
        window.spec_inset(c.margins).spec_expanded(c.margins) == window,
{
    crate::rect::lemma_expand_undoes_inset(window, c.margins);
}

} // verus!
