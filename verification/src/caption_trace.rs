//! The custom-caption window procedure as one sequence of calls, and the
//! proof that the state machine of [`crate::custom_window`] makes exactly
//! these calls.
use vstd::prelude::*;
use crate::custom_window::{
    spec_caption_inset, CaptionEvent, CaptionKind, CaptionProc, CaptionRequest, CaptionStage,
};
use crate::hit_test::{band_hit_fits, spec_band_hit};
use crate::metrics::DwmMargins;
use crate::rect::Rect;
use crate::win32::{
    spec_y_of, FALSE, HTCAPTION, HTCLIENT, HTNOWHERE, TRUE, WM_ACTIVATE, WM_CREATE, WM_NCCALCSIZE,
    WM_NCHITTEST, WVR_VALIDRECTS,
};

verus! {

/// The answers the system gives to the calls of one run of the window
/// procedure.
pub struct CaptionWorld {
    /// The `HRESULT` of `DwmIsCompositionEnabled`.
    pub composition: i32,
    /// What `DwmDefWindowProc` returns.
    pub dwm_handled: i32,
    /// What `DwmDefWindowProc` leaves in its result slot.
    pub dwm_result: isize,
    /// The proposed window rectangle of a client-size calculation.
    pub proposed: Rect,
    /// The window rectangle read for a client-size calculation.
    pub window: Rect,
    /// The answer of the default procedure within a hit test.
    pub hit_default: isize,
    /// The window rectangle read for a hit test.
    pub hit_window: Rect,
    /// The frame rectangle read for a hit test.
    pub frame: Rect,
    /// The answer of the default procedure called at the end.
    pub final_default: isize,
}

/// The calls made so far, whether the default procedure is to be called at
/// the end, and the value to return otherwise.
pub struct CaptionProgress {
    pub requests: Seq<CaptionRequest>,
    pub call_default: bool,
    pub result: isize,
}

/// Window creation: tell the window its frame changed, then call the
/// default procedure and return 0 unless it answers.
pub open spec fn on_create(message: u32, p: CaptionProgress) -> CaptionProgress {
    if message == WM_CREATE {
        CaptionProgress { requests: p.requests.push(CaptionRequest::FrameChange), call_default: true, result: 0 }
    } else {
        p
    }
}

/// Window activation: extend the frame, then call the default procedure.
pub open spec fn on_activate(message: u32, margins: DwmMargins, p: CaptionProgress) -> CaptionProgress {
    if message == WM_ACTIVATE {
        CaptionProgress {
            requests: p.requests.push(CaptionRequest::ExtendFrame(margins)),
            call_default: true,
            result: 0,
        }
    } else {
        p
    }
}

/// Client-size calculation: with `WPARAM` `TRUE`, move the top of the
/// proposed rectangle up by the caption height; with `FALSE` (custom
/// window only), the client rectangle is the window rectangle with its top
/// moved down by the caption height.
pub open spec fn on_nccalcsize(kind: CaptionKind, message: u32, w_param: usize, world: CaptionWorld, p: CaptionProgress) -> CaptionProgress {
    let b = w_param as i32;
    if message == WM_NCCALCSIZE && b == TRUE {
        CaptionProgress {
            requests: p.requests.push(CaptionRequest::ReadProposedRect).push(
                CaptionRequest::WriteProposedRect(world.proposed.spec_expanded(spec_caption_inset())),
            ),
            call_default: p.call_default,
            result: match kind {
                CaptionKind::Window => WVR_VALIDRECTS,
                CaptionKind::Basic => 0,
            },
        }
    } else if message == WM_NCCALCSIZE && b == FALSE && kind == CaptionKind::Window {
        CaptionProgress {
            requests: p.requests.push(CaptionRequest::ReadWindowRect).push(
                CaptionRequest::WriteClientRect(world.window.spec_inset(spec_caption_inset())),
            ),
            call_default: p.call_default,
            result: 0,
        }
    } else {
        p
    }
}

/// Hit test not answered by the Desktop Window Manager: ask the default
/// procedure; where it sees client area, the caption band decides (custom
/// window) or the caption is answered (plain window); any answer but
/// "nowhere" is final.
pub open spec fn on_nchittest(kind: CaptionKind, margins: DwmMargins, message: u32, l_param: isize, world: CaptionWorld, p: CaptionProgress) -> CaptionProgress {
    if message == WM_NCHITTEST && p.result == 0 {
        let d = world.hit_default;
        let asked = p.requests.push(CaptionRequest::CallDefault);
        let (requests, l) = if d == HTCLIENT {
            match kind {
                CaptionKind::Window => (
                    asked.push(CaptionRequest::ReadHitGeometry),
                    spec_band_hit(
                        world.hit_window.top as int,
                        world.frame.top as int,
                        margins.cy_top_height as int,
                        spec_y_of(l_param as int),
                    ),
                ),
                CaptionKind::Basic => (asked, HTCAPTION),
            }
        } else {
            (asked, d)
        };
        CaptionProgress { requests, call_default: if l != HTNOWHERE { false } else { p.call_default }, result: l }
    } else {
        p
    }
}

/// The custom-caption part: let the Desktop Window Manager see the message
/// (its answer decides whether the default procedure is still called, and
/// gives the result), then handle creation, activation, client-size
/// calculation and hit testing in turn.
pub open spec fn caption_part(kind: CaptionKind, margins: DwmMargins, message: u32, w_param: usize, l_param: isize, world: CaptionWorld) -> CaptionProgress {
    let p0 = CaptionProgress {
        requests: seq![CaptionRequest::DwmDefWindowProc],
        call_default: world.dwm_handled != TRUE,
        result: world.dwm_result,
    };
    on_nchittest(
        kind,
        margins,
        message,
        l_param,
        world,
        on_nccalcsize(kind, message, w_param, world, on_activate(message, margins, on_create(message, p0))),
    )
}

/// The calls of the whole window procedure, in order: ask whether the
/// Desktop Window Manager composes; if it does, run the custom-caption part;
/// then call the default procedure and return its answer if still pending,
/// or else return the result.
pub open spec fn caption_calls(kind: CaptionKind, margins: DwmMargins, message: u32, w_param: usize, l_param: isize, world: CaptionWorld) -> Seq<CaptionRequest> {
    let p = if world.composition >= 0 {
        caption_part(kind, margins, message, w_param, l_param, world)
    } else {
        CaptionProgress { requests: seq![], call_default: true, result: 0 }
    };
    seq![CaptionRequest::QueryComposition] + p.requests + (if p.call_default {
        seq![CaptionRequest::CallDefault, CaptionRequest::Return(world.final_default)]
    } else {
        seq![CaptionRequest::Return(p.result)]
    })
}

/// Whether the window procedure computes within `i32` in this world: the
/// rectangle edges it moves and the hit-test band it evaluates.
pub open spec fn caption_defined(kind: CaptionKind, margins: DwmMargins, message: u32, w_param: usize, l_param: isize, world: CaptionWorld) -> bool {
    let b = w_param as i32;
    world.composition >= 0 ==> {
        &&& (message == WM_NCCALCSIZE && b == TRUE ==> world.proposed.can_expand(spec_caption_inset()))
        &&& (message == WM_NCCALCSIZE && b == FALSE && kind == CaptionKind::Window
            ==> world.window.can_inset(spec_caption_inset()))
        &&& (message == WM_NCHITTEST && world.dwm_result == 0 && world.hit_default == HTCLIENT
            && kind == CaptionKind::Window ==> band_hit_fits(
            world.hit_window.top as int,
            world.frame.top as int,
            margins.cy_top_height as int,
            spec_y_of(l_param as int),
        ))
    }
}

/// The answer the system gives to the pending request of `p`.
pub open spec fn world_answer(world: CaptionWorld, p: CaptionProc) -> CaptionEvent {
    match p.stage {
        CaptionStage::Composition => CaptionEvent::Composition(world.composition),
        CaptionStage::Dwm => CaptionEvent::DwmAnswer { handled: world.dwm_handled, result: world.dwm_result },
        CaptionStage::Proposed => CaptionEvent::RectRead(world.proposed),
        CaptionStage::WindowRect => CaptionEvent::RectRead(world.window),
        CaptionStage::HitDefault => CaptionEvent::Default(world.hit_default),
        CaptionStage::HitGeometry => CaptionEvent::Geometry { window: world.hit_window, frame: world.frame },
        CaptionStage::FinalDefault => CaptionEvent::Default(world.final_default),
        _ => CaptionEvent::Done,
    }
}

/// The requests the machine makes when the system answers from `world`,
/// for at most `fuel` steps or until it is finished.
pub open spec fn drive(p: CaptionProc, world: CaptionWorld, fuel: nat) -> Seq<CaptionRequest>
    decreases fuel,
{
    if fuel == 0 || p.stage == CaptionStage::Finished {
        seq![]
    } else {
        let (q, r) = p.spec_next(world_answer(world, p));
        seq![r] + drive(q, world, (fuel - 1) as nat)
    }
}

/// The machine reached after at most `fuel` steps.
pub open spec fn drive_state(p: CaptionProc, world: CaptionWorld, fuel: nat) -> CaptionProc
    decreases fuel,
{
    if fuel == 0 || p.stage == CaptionStage::Finished {
        p
    } else {
        drive_state(p.spec_next(world_answer(world, p)).0, world, (fuel - 1) as nat)
    }
}

/// Whether every answer along those steps is one the machine accepts.
pub open spec fn drive_accepted(p: CaptionProc, world: CaptionWorld, fuel: nat) -> bool
    decreases fuel,
{
    if fuel == 0 || p.stage == CaptionStage::Finished {
        true
    } else {
        p.accepts(world_answer(world, p)) && drive_accepted(p.spec_next(world_answer(world, p)).0, world, (fuel - 1) as nat)
    }
}

/// Driven by the system's answers, the state machine makes the same calls in
/// the same order as the window procedure written out in one piece, ends
/// by returning the same value, and never receives an answer it cannot take.
pub proof fn lemma_machine_makes_procedure_calls(kind: CaptionKind, margins: DwmMargins, message: u32, w_param: usize, l_param: isize, world: CaptionWorld)
    requires
        caption_defined(kind, margins, message, w_param, l_param, world),
    ensures
        ({
            let p0 = CaptionProc::spec_start(kind, margins, message, w_param, l_param);
            &&& drive_accepted(p0, world, 6)
            &&& drive_state(p0, world, 6).stage == CaptionStage::Finished
            &&& seq![CaptionRequest::QueryComposition] + drive(p0, world, 6)
                == caption_calls(kind, margins, message, w_param, l_param, world)
        }),
{
    reveal_with_fuel(drive, 7);
    reveal_with_fuel(drive_state, 7);
    reveal_with_fuel(drive_accepted, 7);
    let p0 = CaptionProc::spec_start(kind, margins, message, w_param, l_param);
    assert(seq![CaptionRequest::QueryComposition] + drive(p0, world, 6)
        =~= caption_calls(kind, margins, message, w_param, l_param, world));
}

} // verus!
