//! A window with a custom caption drawn into an extended frame: the window
//! procedure as a state machine driven by the host, which performs each
//! request and reports its outcome.
use vstd::prelude::*;
use crate::dwm_frame::{ExtendFrameRequest, WindowRequest};
use crate::hit_test::{band_hit_fits, band_hit_test, spec_band_hit, HitTest};
use crate::metrics::{DwmMargins, Margins};
use crate::rect::Rect;
use crate::win32::{
    spec_y_of, FALSE, HTCAPTION, HTCLIENT, HTNOWHERE, TRUE, WM_ACTIVATE, WM_CREATE, WM_NCCALCSIZE,
    WM_NCHITTEST, WVR_VALIDRECTS,
};

verus! {

/// The height by which the caption reaches into the client area.
pub const CAPTION_HEIGHT: i32 = 31;

/// The margins by which the frame is extended for the custom caption: the
/// caption height at the top, nothing elsewhere.
pub open spec fn spec_caption_margins() -> DwmMargins {
    DwmMargins { cx_left_width: 0, cx_right_width: 0, cy_top_height: CAPTION_HEIGHT, cy_bottom_height: 0 }
}

/// The margins by which the client area is moved: the caption height at the
/// top, nothing elsewhere.
pub open spec fn spec_caption_inset() -> Margins {
    Margins { left: 0, top: CAPTION_HEIGHT, right: 0, bottom: 0 }
}

/// The frame extension of a custom caption.
pub fn caption_margins() -> (m: DwmMargins)
    ensures
        m == spec_caption_margins(),
{
    DwmMargins { cx_left_width: 0, cx_right_width: 0, cy_top_height: CAPTION_HEIGHT, cy_bottom_height: 0 }
}

/// The client-area inset of a custom caption.
pub fn caption_inset() -> (m: Margins)
    ensures
        m == spec_caption_inset(),
{
    Margins { left: 0, top: CAPTION_HEIGHT, right: 0, bottom: 0 }
}

/// Which window procedure the machine runs.
#[derive(Clone, Copy, Debug, PartialEq, Eq, Structural)]
pub enum CaptionKind {
    /// The procedure of [`CustomWindow`]: a client-size calculation with
    /// `WPARAM` `TRUE` answers `WVR_VALIDRECTS`, one with `FALSE` computes
    /// the client rectangle, and a hit test in the client area is decided
    /// by the caption band.
    Window,
    /// The procedure of a plain window subclassed with a custom caption
    /// ([`wnd_proc`]): only a client-size calculation with `WPARAM` `TRUE`
    /// is handled, answering 0, and every hit test in the client area is
    /// caption.
    Basic,
}

/// A request of the window procedure to its host.
#[derive(Clone, Copy, Debug, PartialEq, Eq, Structural)]
pub enum CaptionRequest {
    /// Ask whether the Desktop Window Manager composes
    /// (`DwmIsCompositionEnabled`); answer [`CaptionEvent::Composition`].
    QueryComposition,
    /// Let the Desktop Window Manager see the message first
    /// (`DwmDefWindowProc`, with a result slot holding 0); answer
    /// [`CaptionEvent::DwmAnswer`].
    DwmDefWindowProc,
    /// Tell the window its frame changed; answer [`CaptionEvent::Done`].
    FrameChange,
    /// Extend the frame into the client area; answer [`CaptionEvent::Done`].
    ExtendFrame(DwmMargins),
    /// Read the proposed window rectangle of the `NCCALCSIZE_PARAMS` block;
    /// answer [`CaptionEvent::RectRead`].
    ReadProposedRect,
    /// Write the proposed window rectangle; answer [`CaptionEvent::Done`].
    WriteProposedRect(Rect),
    /// Read the window rectangle; answer [`CaptionEvent::RectRead`].
    ReadWindowRect,
    /// Write the rectangle that `LPARAM` points to; answer
    /// [`CaptionEvent::Done`].
    WriteClientRect(Rect),
    /// Pass the message on to the default procedure; answer
    /// [`CaptionEvent::Default`].
    CallDefault,
    /// Read the window rectangle and the frame rectangle that
    /// `AdjustWindowRectEx` makes of an empty rectangle for the frame
    /// without caption; answer [`CaptionEvent::Geometry`].
    ReadHitGeometry,
    /// Return this value from the window procedure; the machine is finished.
    Return(isize),
}

/// What the host reports after performing a request.
#[derive(Clone, Copy, Debug, PartialEq, Eq, Structural)]
pub enum CaptionEvent {
    /// The `HRESULT` of the composition query.
    Composition(i32),
    /// Whether `DwmDefWindowProc` handled the message, and its result slot.
    DwmAnswer { handled: i32, result: isize },
    /// The request was performed.
    Done,
    /// The rectangle that was read.
    RectRead(Rect),
    /// The answer of the default procedure.
    Default(isize),
    /// The window rectangle and the frame rectangle.
    Geometry { window: Rect, frame: Rect },
}

/// The point the machine has reached: which answer it awaits.
#[derive(Clone, Copy, Debug, PartialEq, Eq, Structural)]
pub enum CaptionStage {
    Composition,
    Dwm,
    FrameChanged,
    Extended,
    Proposed,
    ProposedWritten,
    WindowRect,
    ClientWritten,
    HitDefault,
    HitGeometry,
    FinalDefault,
    Finished,
}

/// A window procedure in progress.
#[derive(Clone, Copy, Debug, PartialEq, Eq, Structural)]
pub struct CaptionProc {
    pub kind: CaptionKind,
    /// The margins by which an activation extends the frame; their top
    /// height is also the height of the caption band for hit testing.
    pub margins: DwmMargins,
    pub message: u32,
    pub w_param: usize,
    pub l_param: isize,
    pub stage: CaptionStage,
    /// Whether the default procedure is still to be called at the end.
    pub call_default: bool,
    /// The value returned if the default procedure is not called.
    pub result: isize,
}

impl CaptionProc {
    /// A machine at a later stage, with the given pending flag and result.
    pub open spec fn at(self, stage: CaptionStage, call_default: bool, result: isize) -> CaptionProc {
        CaptionProc { stage, call_default, result, ..self }
    }

    /// The end of the custom-caption part: the default procedure is called
    /// if still pending, otherwise the result is returned.
    pub open spec fn spec_finish(self, call_default: bool, result: isize) -> (CaptionProc, CaptionRequest) {
        if call_default {
            (self.at(CaptionStage::FinalDefault, call_default, result), CaptionRequest::CallDefault)
        } else {
            (self.at(CaptionStage::Finished, call_default, result), CaptionRequest::Return(result))
        }
    }

    /// What the machine does once `DwmDefWindowProc` has answered, with
    /// `call_default` and `result` set from that answer: each message the
    /// caption handles gets its request, every other message ends the
    /// custom-caption part.
    pub open spec fn spec_dispatch(self, call_default: bool, result: isize) -> (CaptionProc, CaptionRequest) {
        let b = self.w_param as i32;
        if self.message == WM_CREATE {
            (self.at(CaptionStage::FrameChanged, call_default, result), CaptionRequest::FrameChange)
        } else if self.message == WM_ACTIVATE {
            (self.at(CaptionStage::Extended, call_default, result), CaptionRequest::ExtendFrame(self.margins))
        } else if self.message == WM_NCCALCSIZE && b == TRUE {
            (self.at(CaptionStage::Proposed, call_default, result), CaptionRequest::ReadProposedRect)
        } else if self.message == WM_NCCALCSIZE && b == FALSE && self.kind == CaptionKind::Window {
            (self.at(CaptionStage::WindowRect, call_default, result), CaptionRequest::ReadWindowRect)
        } else if self.message == WM_NCHITTEST && result == 0 {
            (self.at(CaptionStage::HitDefault, call_default, result), CaptionRequest::CallDefault)
        } else {
            self.spec_finish(call_default, result)
        }
    }

    /// The answer of a caption hit test that the default procedure placed at
    /// `d`, given the band classification `band` of the pointer.
    pub open spec fn spec_hit_answer(self, d: isize, band: isize) -> isize {
        if d == HTCLIENT {
            match self.kind {
                CaptionKind::Window => band,
                CaptionKind::Basic => HTCAPTION,
            }
        } else {
            d
        }
    }

    /// Whether the machine can take `ev` now: it is the answer to the
    /// pending request, and computing with it stays within `i32`.
    pub open spec fn accepts(self, ev: CaptionEvent) -> bool {
        match self.stage {
            CaptionStage::Composition => ev is Composition,
            CaptionStage::Dwm => ev is DwmAnswer,
            CaptionStage::FrameChanged => ev is Done,
            CaptionStage::Extended => ev is Done,
            CaptionStage::Proposed => ev matches CaptionEvent::RectRead(r) && r.can_expand(spec_caption_inset()),
            CaptionStage::ProposedWritten => ev is Done,
            CaptionStage::WindowRect => ev matches CaptionEvent::RectRead(r) && r.can_inset(spec_caption_inset()),
            CaptionStage::ClientWritten => ev is Done,
            CaptionStage::HitDefault => ev is Default,
            CaptionStage::HitGeometry => ev matches CaptionEvent::Geometry { window, frame } && band_hit_fits(
                window.top as int,
                frame.top as int,
                self.margins.cy_top_height as int,
                spec_y_of(self.l_param as int),
            ),
            CaptionStage::FinalDefault => ev is Default,
            CaptionStage::Finished => false,
        }
    }

    /// The step the machine takes on an accepted event: its next state and
    /// its next request.
    pub open spec fn spec_next(self, ev: CaptionEvent) -> (CaptionProc, CaptionRequest) {
        match (self.stage, ev) {
            (CaptionStage::Composition, CaptionEvent::Composition(hr)) => {
                if hr >= 0 {
                    (self.at(CaptionStage::Dwm, self.call_default, self.result), CaptionRequest::DwmDefWindowProc)
                } else {
                    self.spec_finish(true, 0)
                }
            },
            (CaptionStage::Dwm, CaptionEvent::DwmAnswer { handled, result }) => {
                self.spec_dispatch(handled != TRUE, result)
            },
            (CaptionStage::FrameChanged, CaptionEvent::Done) => self.spec_finish(true, 0),
            (CaptionStage::Extended, CaptionEvent::Done) => self.spec_finish(true, 0),
            (CaptionStage::Proposed, CaptionEvent::RectRead(r)) => {
                (
                    self.at(CaptionStage::ProposedWritten, self.call_default, self.result),
                    CaptionRequest::WriteProposedRect(r.spec_expanded(spec_caption_inset())),
                )
            },
            (CaptionStage::ProposedWritten, CaptionEvent::Done) => {
                self.spec_finish(
                    self.call_default,
                    match self.kind {
                        CaptionKind::Window => WVR_VALIDRECTS,
                        CaptionKind::Basic => 0,
                    },
                )
            },
            (CaptionStage::WindowRect, CaptionEvent::RectRead(r)) => {
                (
                    self.at(CaptionStage::ClientWritten, self.call_default, self.result),
                    CaptionRequest::WriteClientRect(r.spec_inset(spec_caption_inset())),
                )
            },
            (CaptionStage::ClientWritten, CaptionEvent::Done) => self.spec_finish(self.call_default, 0),
            (CaptionStage::HitDefault, CaptionEvent::Default(d)) => {
                if d == HTCLIENT && self.kind == CaptionKind::Window {
                    (self.at(CaptionStage::HitGeometry, self.call_default, self.result), CaptionRequest::ReadHitGeometry)
                } else {
                    let l = self.spec_hit_answer(d, HTNOWHERE);
                    self.spec_finish(if l != HTNOWHERE { false } else { self.call_default }, l)
                }
            },
            (CaptionStage::HitGeometry, CaptionEvent::Geometry { window, frame }) => {
                let l = spec_band_hit(
                    window.top as int,
                    frame.top as int,
                    self.margins.cy_top_height as int,
                    spec_y_of(self.l_param as int),
                );
                self.spec_finish(if l != HTNOWHERE { false } else { self.call_default }, l)
            },
            (CaptionStage::FinalDefault, CaptionEvent::Default(v)) => {
                (self.at(CaptionStage::Finished, self.call_default, v), CaptionRequest::Return(v))
            },
            _ => (self, CaptionRequest::Return(self.result)),
        }
    }

    /// The machine at its start: it asks whether the Desktop Window Manager
    /// composes.
    pub open spec fn spec_start(kind: CaptionKind, margins: DwmMargins, message: u32, w_param: usize, l_param: isize) -> CaptionProc {
        CaptionProc {
            kind,
            margins,
            message,
            w_param,
            l_param,
            stage: CaptionStage::Composition,
            call_default: true,
            result: 0,
        }
    }

    /// Starts the window procedure for a message.
    pub fn start(kind: CaptionKind, margins: DwmMargins, message: u32, w_param: usize, l_param: isize) -> (r: (CaptionProc, CaptionRequest))
        ensures
            r.0 == Self::spec_start(kind, margins, message, w_param, l_param),
            r.1 == CaptionRequest::QueryComposition,
    {
        (
            CaptionProc {
                kind,
                margins,
                message,
                w_param,
                l_param,
                stage: CaptionStage::Composition,
                call_default: true,
                result: 0,
            },
            CaptionRequest::QueryComposition,
        )
    }

    fn finish(self, call_default: bool, result: isize) -> (r: (CaptionProc, CaptionRequest))
        ensures
            r == self.spec_finish(call_default, result),
    {
        if call_default {
            (CaptionProc { stage: CaptionStage::FinalDefault, call_default, result, ..self }, CaptionRequest::CallDefault)
        } else {
            (CaptionProc { stage: CaptionStage::Finished, call_default, result, ..self }, CaptionRequest::Return(result))
        }
    }

    fn dispatch(self, call_default: bool, result: isize) -> (r: (CaptionProc, CaptionRequest))
        ensures
            r == self.spec_dispatch(call_default, result),
    {
        let b = crate::win32::bool_param(self.w_param);
        if self.message == WM_CREATE {
            (CaptionProc { stage: CaptionStage::FrameChanged, call_default, result, ..self }, CaptionRequest::FrameChange)
        } else if self.message == WM_ACTIVATE {
            let m = self.margins;
            (CaptionProc { stage: CaptionStage::Extended, call_default, result, ..self }, CaptionRequest::ExtendFrame(m))
        } else if self.message == WM_NCCALCSIZE && b == TRUE {
            (CaptionProc { stage: CaptionStage::Proposed, call_default, result, ..self }, CaptionRequest::ReadProposedRect)
        } else if self.message == WM_NCCALCSIZE && b == FALSE && self.kind == CaptionKind::Window {
            (CaptionProc { stage: CaptionStage::WindowRect, call_default, result, ..self }, CaptionRequest::ReadWindowRect)
        } else if self.message == WM_NCHITTEST && result == 0 {
            (CaptionProc { stage: CaptionStage::HitDefault, call_default, result, ..self }, CaptionRequest::CallDefault)
        } else {
            self.finish(call_default, result)
        }
    }

    /// Whether the machine can take `ev` now (see [`CaptionProc::accepts`]).
    pub fn can_take(&self, ev: &CaptionEvent) -> (ok: bool)
        ensures
            ok == self.accepts(*ev),
    {
        match self.stage {
            CaptionStage::Composition => matches!(ev, CaptionEvent::Composition(_)),
            CaptionStage::Dwm => matches!(ev, CaptionEvent::DwmAnswer { .. }),
            CaptionStage::FrameChanged => matches!(ev, CaptionEvent::Done),
            CaptionStage::Extended => matches!(ev, CaptionEvent::Done),
            CaptionStage::Proposed => match ev {
                CaptionEvent::RectRead(r) => fits_i64(r.top as i64 - CAPTION_HEIGHT as i64),
                _ => false,
            },
            CaptionStage::ProposedWritten => matches!(ev, CaptionEvent::Done),
            CaptionStage::WindowRect => match ev {
                CaptionEvent::RectRead(r) => fits_i64(r.top as i64 + CAPTION_HEIGHT as i64),
                _ => false,
            },
            CaptionStage::ClientWritten => matches!(ev, CaptionEvent::Done),
            CaptionStage::HitDefault => matches!(ev, CaptionEvent::Default(_)),
            CaptionStage::HitGeometry => match ev {
                CaptionEvent::Geometry { window, frame } => crate::hit_test::band_hit_test_fits(
                    window,
                    frame,
                    self.margins.cy_top_height,
                    self.l_param,
                ),
                _ => false,
            },
            CaptionStage::FinalDefault => matches!(ev, CaptionEvent::Default(_)),
            CaptionStage::Finished => false,
        }
    }

    /// Takes the answer to the pending request and returns the next state
    /// and request.
    pub fn resume(self, ev: CaptionEvent) -> (r: (CaptionProc, CaptionRequest))
        requires
            self.accepts(ev),
        ensures
            r == self.spec_next(ev),
    {
        match (self.stage, ev) {
            (CaptionStage::Composition, CaptionEvent::Composition(hr)) => {
                if crate::win32::succeeded(hr) {
                    (CaptionProc { stage: CaptionStage::Dwm, ..self }, CaptionRequest::DwmDefWindowProc)
                } else {
                    self.finish(true, 0)
                }
            },
            (CaptionStage::Dwm, CaptionEvent::DwmAnswer { handled, result }) => {
                self.dispatch(handled != TRUE, result)
            },
            (CaptionStage::FrameChanged, CaptionEvent::Done) => self.finish(true, 0),
            (CaptionStage::Extended, CaptionEvent::Done) => self.finish(true, 0),
            (CaptionStage::Proposed, CaptionEvent::RectRead(r)) => {
                let written = r.expanded_by(&caption_inset());
                (CaptionProc { stage: CaptionStage::ProposedWritten, ..self }, CaptionRequest::WriteProposedRect(written))
            },
            (CaptionStage::ProposedWritten, CaptionEvent::Done) => {
                let l = match self.kind {
                    CaptionKind::Window => WVR_VALIDRECTS,
                    CaptionKind::Basic => 0,
                };
                let f = self.call_default;
                self.finish(f, l)
            },
            (CaptionStage::WindowRect, CaptionEvent::RectRead(r)) => {
                let written = r.inset_by(&caption_inset());
                (CaptionProc { stage: CaptionStage::ClientWritten, ..self }, CaptionRequest::WriteClientRect(written))
            },
            (CaptionStage::ClientWritten, CaptionEvent::Done) => {
                let f = self.call_default;
                self.finish(f, 0)
            },
            (CaptionStage::HitDefault, CaptionEvent::Default(d)) => {
                if d == HTCLIENT && self.kind == CaptionKind::Window {
                    (CaptionProc { stage: CaptionStage::HitGeometry, ..self }, CaptionRequest::ReadHitGeometry)
                } else {
                    let l = if d == HTCLIENT { HTCAPTION } else { d };
                    let f = if l != HTNOWHERE { false } else { self.call_default };
                    self.finish(f, l)
                }
            },
            (CaptionStage::HitGeometry, CaptionEvent::Geometry { window, frame }) => {
                let l = band_hit_test(&window, &frame, self.margins.cy_top_height, self.l_param);
                let f = if l != HTNOWHERE { false } else { self.call_default };
                self.finish(f, l)
            },
            (CaptionStage::FinalDefault, CaptionEvent::Default(v)) => {
                (CaptionProc { stage: CaptionStage::Finished, result: v, ..self }, CaptionRequest::Return(v))
            },
            _ => {
                let l = self.result;
                (self, CaptionRequest::Return(l))
            },
        }
    }
}

/// Whether a 64-bit value fits in `i32`.
fn fits_i64(v: i64) -> (ok: bool)
    ensures
        ok == crate::rect::fits_i32(v as int),
{
    i32::MIN as i64 <= v && v <= i32::MAX as i64
}

/// A window whose caption is drawn into the frame extended at its top.
#[derive(Clone, Copy, Debug, PartialEq, Eq, Structural)]
pub struct CustomWindow {
    /// The margins by which the frame is extended.
    pub margins: DwmMargins,
}

impl Default for CustomWindow {
    /// The frame extended by the caption height at the top.
    fn default() -> (w: Self)
        ensures
            w.margins == spec_caption_margins(),
    {
        CustomWindow { margins: caption_margins() }
    }
}

impl CustomWindow {
    /// Starts the window procedure for a message.
    pub fn wnd_proc(&self, message: u32, w_param: usize, l_param: isize) -> (r: (CaptionProc, CaptionRequest))
        ensures
            r.0 == CaptionProc::spec_start(CaptionKind::Window, self.margins, message, w_param, l_param),
            r.1 == CaptionRequest::QueryComposition,
    {
        CaptionProc::start(CaptionKind::Window, self.margins, message, w_param, l_param)
    }

    /// On attachment, the frame of the window is extended, and the window
    /// is then told that its frame changed.
    pub fn init(&self, h_wnd: usize) -> (reqs: Vec<WindowRequest>)
        ensures
            reqs@ == seq![
                WindowRequest::ExtendFrame(ExtendFrameRequest { window: h_wnd, margins: self.margins }),
                WindowRequest::FrameChange(h_wnd),
            ],
    {
        vec![
            WindowRequest::ExtendFrame(ExtendFrameRequest { window: h_wnd, margins: self.margins }),
            WindowRequest::FrameChange(h_wnd),
        ]
    }
}

/// Starts the window procedure of a plain window subclassed with a custom
/// caption.
pub fn wnd_proc(message: u32, w_param: usize, l_param: isize) -> (r: (CaptionProc, CaptionRequest))
    ensures
        r.0 == CaptionProc::spec_start(CaptionKind::Basic, spec_caption_margins(), message, w_param, l_param),
        r.1 == CaptionRequest::QueryComposition,
{
    CaptionProc::start(CaptionKind::Basic, caption_margins(), message, w_param, l_param)
}

/// Subclassing a plain window with a custom caption, in order: install the
/// window procedure under identifier 0, extend the frame by the caption
/// margins, tell the window its frame changed.
pub fn subclass_window(h_wnd: usize) -> (reqs: Vec<WindowRequest>)
    ensures
        reqs@ == seq![
            WindowRequest::InstallSubclass { window: h_wnd, id: 0 },
            WindowRequest::ExtendFrame(ExtendFrameRequest { window: h_wnd, margins: spec_caption_margins() }),
            WindowRequest::FrameChange(h_wnd),
        ],
{
    vec![
        WindowRequest::InstallSubclass { window: h_wnd, id: 0 },
        WindowRequest::ExtendFrame(ExtendFrameRequest { window: h_wnd, margins: caption_margins() }),
        WindowRequest::FrameChange(h_wnd),
    ]
}

/// The caption band of a custom window answers a hit test in the client area
/// as a [`HitTest`] subclass with the same title-bar height does: when the
/// default procedure places the point in the client area and the geometry
/// is read, the window procedure returns the band's answer, which is what
/// `HitTest::hit_test` and `HitTest::answer_with_geometry` return.
pub proof fn lemma_custom_window_hit_is_hit_test(
    w: CustomWindow,
    h: HitTest,
    p: CaptionProc,
    window: Rect,
    frame: Rect,
)
    requires
        h.titlebar_height == w.margins.cy_top_height,
        p.kind == CaptionKind::Window,
        p.margins == w.margins,
        p.stage == CaptionStage::HitGeometry,
        p.accepts(CaptionEvent::Geometry { window, frame }),
    ensures
        p.spec_next(CaptionEvent::Geometry { window, frame }).1 == CaptionRequest::Return(
            spec_band_hit(window.top as int, frame.top as int, h.titlebar_height as int, spec_y_of(p.l_param as int)),
        ),
        band_hit_fits(window.top as int, frame.top as int, h.titlebar_height as int, spec_y_of(p.l_param as int)),
{
}

} // verus!
