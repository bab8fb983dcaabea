//! Win32 message codes, result codes and the few message crackers that
//! the window procedures of this crate rely on.
use vstd::prelude::*;

verus! {

/// `WM_CREATE`: the window is being created.
pub const WM_CREATE: u32 = 0x0001;
/// `WM_ACTIVATE`: the window is being activated or deactivated.
pub const WM_ACTIVATE: u32 = 0x0006;
/// `WM_NCCALCSIZE`: the size of the client area is being calculated.
pub const WM_NCCALCSIZE: u32 = 0x0083;
/// `WM_NCHITTEST`: the system asks which part of the window a point lies in.
pub const WM_NCHITTEST: u32 = 0x0084;

/// Hit-test result: the point is on no part of the window.
pub const HTNOWHERE: isize = 0;
/// Hit-test result: the point is in the client area.
pub const HTCLIENT: isize = 1;
/// Hit-test result: the point is in the caption.
pub const HTCAPTION: isize = 2;
/// Hit-test result: the point is on the top sizing border.
pub const HTTOP: isize = 12;

/// `WM_NCCALCSIZE` result: the rectangles of the parameter block are valid.
pub const WVR_VALIDRECTS: isize = 0x0400;

/// The Win32 `TRUE`.
pub const TRUE: i32 = 1;
/// The Win32 `FALSE`.
pub const FALSE: i32 = 0;

/// `WS_CAPTION`: the window has a title bar.
pub const WS_CAPTION: u32 = 0x00C0_0000;
/// `WS_OVERLAPPEDWINDOW`: overlapped window with title bar, system menu,
/// sizing border and the minimize and maximize boxes.
pub const WS_OVERLAPPEDWINDOW: u32 = 0x00CF_0000;

/// `SUCCEEDED(hr)`: an `HRESULT` reports success when it is not negative.
pub fn succeeded(hr: i32) -> (ok: bool)
    ensures
        ok == (hr >= 0),
{
    hr >= 0
}

/// A `WPARAM` read as a Win32 `BOOL`: its low 32 bits as a signed integer.
pub fn bool_param(w_param: usize) -> (b: i32)
    ensures
        b == w_param as i32,
{
    w_param as i32
}

/// A 16-bit word read as a signed `short`.
pub open spec fn signed_word(w: int) -> int {
    if w >= 0x8000 {
        w - 0x1_0000
    } else {
        w
    }
}

/// The signed low word of a message parameter (`GET_X_LPARAM`).
pub open spec fn spec_x_of(l_param: int) -> int {
    signed_word(l_param % 0x1_0000)
}

/// The signed high word of the low double word of a message parameter
/// (`GET_Y_LPARAM`).
pub open spec fn spec_y_of(l_param: int) -> int {
    signed_word((l_param / 0x1_0000) % 0x1_0000)
}

/// A point in screen coordinates.
#[derive(Clone, Copy, Debug, PartialEq, Eq, Structural)]
pub struct Point {
    pub x: i32,
    pub y: i32,
}

/// The pointer location packed in the `LPARAM` of a mouse or hit-test
/// message: `x` is the signed low word, `y` the signed high word of the
/// low double word.
pub fn pointer_location(l_param: isize) -> (p: Point)
    ensures
        p.x == spec_x_of(l_param as int),
        p.y == spec_y_of(l_param as int),
{
    let dword: u32 = l_param as u32;
    let low: u32 = dword & 0xffff;
    let high: u32 = (dword >> 16) & 0xffff;
    assert(low == (l_param as int) % 0x1_0000) by (bit_vector)
        requires
            dword == l_param as u32,
            low == dword & 0xffff,
    ;
    assert(high == ((l_param as int) / 0x1_0000) % 0x1_0000) by (bit_vector)
        requires
            dword == l_param as u32,
            high == (dword >> 16) & 0xffff,
    ;
    let x: i32 = if low >= 0x8000 { low as i32 - 0x1_0000 } else { low as i32 };
    let y: i32 = if high >= 0x8000 { high as i32 - 0x1_0000 } else { high as i32 };
    Point { x, y }
}

} // verus!
