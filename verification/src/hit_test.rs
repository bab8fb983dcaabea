//! Hit testing of an extended title bar: points in the top band of the
//! window act as caption (or as top sizing border).
use vstd::prelude::*;
use crate::rect::{Rect, fits_i32};
use crate::win32::{pointer_location, spec_y_of, HTCAPTION, HTCLIENT, HTNOWHERE, HTTOP, WM_NCHITTEST};

verus! {

/// Where a point at height `y` lies in a window whose top edge is at
/// `window_top`, whose title bar band is `height` pixels high, and whose
/// standard frame (without caption) reaches `frame_top` above the client
/// area (a negative offset): in the band, above the sizing-border height
/// it is the top border, below it the caption; outside the band it is
/// client area.
pub open spec fn spec_band_hit(window_top: int, frame_top: int, height: int, y: int) -> isize {
    if window_top <= y && y < window_top + height {
        if y < window_top - frame_top {
            HTTOP
        } else {
            HTCAPTION
        }
    } else {
        HTCLIENT
    }
}

/// Whether the hit test of a point at height `y` computes within `i32`:
/// the bottom of the band is computed once the point is known to lie
/// below the window top, the sizing-border height once it is known to
/// lie in the band.
pub open spec fn band_hit_fits(window_top: int, frame_top: int, height: int, y: int) -> bool {
    &&& (window_top <= y ==> fits_i32(window_top + height))
    &&& (window_top <= y && y < window_top + height ==> fits_i32(window_top - frame_top))
}

/// Classifies the pointer packed in `l_param` against a title-bar band of
/// `height` pixels at the top of `window`; `frame` is the rectangle that
/// `AdjustWindowRectEx` makes of an empty rectangle for the frame without
/// caption.
pub fn band_hit_test(window: &Rect, frame: &Rect, height: i32, l_param: isize) -> (r: isize)
    requires
        band_hit_fits(window.top as int, frame.top as int, height as int, spec_y_of(l_param as int)),
    ensures
        r == spec_band_hit(window.top as int, frame.top as int, height as int, spec_y_of(l_param as int)),
        r == HTTOP || r == HTCAPTION || r == HTCLIENT,
        ({
            let y = spec_y_of(l_param as int);
            &&& (window.top <= y < window.top + height && y < window.top - frame.top ==> r == 12)
            &&& (window.top - frame.top <= y && window.top <= y < window.top + height ==> r == 2)
            &&& (y < window.top || y >= window.top + height ==> r == 1)
        }),
{
    let y = pointer_location(l_param).y;
    if y >= window.top && y < window.top + height {
        if y < window.top - frame.top {
            HTTOP
        } else {
            HTCAPTION
        }
    } else {
        HTCLIENT
    }
}

/// Whether [`band_hit_test`] may be called on these values.
pub fn band_hit_test_fits(window: &Rect, frame: &Rect, height: i32, l_param: isize) -> (ok: bool)
    ensures
        ok == band_hit_fits(window.top as int, frame.top as int, height as int, spec_y_of(l_param as int)),
{
    let y: i64 = pointer_location(l_param).y as i64;
    let top: i64 = window.top as i64;
    let bottom: i64 = top + height as i64;
    let border: i64 = top - frame.top as i64;
    let bottom_fits = i32::MIN as i64 <= bottom && bottom <= i32::MAX as i64;
    let border_fits = i32::MIN as i64 <= border && border <= i32::MAX as i64;
    (!(top <= y) || bottom_fits) && (!(top <= y && y < bottom) || border_fits)
}

/// What the window procedure does after the default procedure answered a
/// message.
#[derive(Clone, Copy, Debug, PartialEq, Eq, Structural)]
pub enum HitTestStep {
    /// Return this value.
    Reply(isize),
    /// The default procedure placed the point in the client area: read the
    /// window and frame rectangles and finish with
    /// [`HitTest::answer_with_geometry`].
    NeedGeometry,
}

/// A subclass that makes the top band of the client area behave as the
/// title bar.
#[derive(Clone, Copy, Debug)]
pub struct HitTest {
    /// The window the subclass is attached to, once attached.
    pub window: Option<usize>,
    /// The height of the band that acts as title bar.
    pub titlebar_height: i32,
}

impl Default for HitTest {
    /// Not attached, with a band of height 0.
    fn default() -> (h: Self)
        ensures
            h.window is None,
            h.titlebar_height == 0,
    {
        HitTest { window: None, titlebar_height: 0 }
    }
}

impl HitTest {
    /// A subclass whose title-bar band is `titlebar_height` pixels high.
    pub fn extend_titlebar(titlebar_height: i32) -> (h: Self)
        ensures
            h.window is None,
            h.titlebar_height == titlebar_height,
    {
        HitTest { window: None, titlebar_height }
    }

    /// Changes the height of the title-bar band.
    pub fn set_titlebar_height(&mut self, titlebar_height: i32)
        ensures
            final(self).titlebar_height == titlebar_height,
            final(self).window == old(self).window,
    {
        self.titlebar_height = titlebar_height;
    }

    /// Records the window the subclass was attached to.
    pub fn init(&mut self, h_wnd: usize)
        ensures
            final(self).window == Some(h_wnd),
            final(self).titlebar_height == old(self).titlebar_height,
    {
        self.window = Some(h_wnd);
    }

    /// Classifies the pointer packed in `l_param` against the title-bar
    /// band at the top of `window`.
    pub fn hit_test(&self, window: &Rect, frame: &Rect, l_param: isize) -> (r: isize)
        requires
            band_hit_fits(window.top as int, frame.top as int, self.titlebar_height as int, spec_y_of(l_param as int)),
        ensures
            r == spec_band_hit(window.top as int, frame.top as int, self.titlebar_height as int, spec_y_of(l_param as int)),
            r != HTNOWHERE,
            ({
                let y = spec_y_of(l_param as int);
                let h = self.titlebar_height;
                &&& (window.top <= y < window.top + h && y < window.top - frame.top ==> r == 12)
                &&& (window.top - frame.top <= y && window.top <= y < window.top + h ==> r == 2)
                &&& (y < window.top || y >= window.top + h ==> r == 1)
            }),
    {
        band_hit_test(window, frame, self.titlebar_height, l_param)
    }

    /// Whether [`HitTest::hit_test`] may be called on these values.
    pub fn hit_test_fits(&self, window: &Rect, frame: &Rect, l_param: isize) -> (ok: bool)
        ensures
            ok == band_hit_fits(window.top as int, frame.top as int, self.titlebar_height as int, spec_y_of(l_param as int)),
    {
        band_hit_test_fits(window, frame, self.titlebar_height, l_param)
    }

    /// The window procedure, after the default procedure answered
    /// `default_ret`: only a hit test that the default procedure placed in
    /// the client area is looked at again; every other answer is returned
    /// as it is.
    pub fn wnd_proc(&self, message: u32, default_ret: isize) -> (s: HitTestStep)
        ensures
            s == (if message == WM_NCHITTEST && default_ret == HTCLIENT {
                HitTestStep::NeedGeometry
            } else {
                HitTestStep::Reply(default_ret)
            }),
    {
        if message == WM_NCHITTEST && default_ret == HTCLIENT {
            HitTestStep::NeedGeometry
        } else {
            HitTestStep::Reply(default_ret)
        }
    }

    /// Finishes a hit test that needed the geometry: the band decides, unless
    /// it places the point nowhere, in which case the default answer stands.
    pub fn answer_with_geometry(&self, default_ret: isize, window: &Rect, frame: &Rect, l_param: isize) -> (r: isize)
        requires
            band_hit_fits(window.top as int, frame.top as int, self.titlebar_height as int, spec_y_of(l_param as int)),
        ensures
            r == spec_band_hit(window.top as int, frame.top as int, self.titlebar_height as int, spec_y_of(l_param as int)),
            ({
                let y = spec_y_of(l_param as int);
                let h = self.titlebar_height;
                &&& (window.top <= y < window.top + h && y < window.top - frame.top ==> r == 12)
                &&& (window.top - frame.top <= y && window.top <= y < window.top + h ==> r == 2)
                &&& (y < window.top || y >= window.top + h ==> r == 1)
            }),
    {
        let hit = self.hit_test(window, frame, l_param);
        if hit != HTNOWHERE {
            hit
        } else {
            default_ret
        }
    }
}

} // verus!

verus! {

/// The frame rectangle a hit test reads (an empty rectangle adjusted for
/// [`crate::metrics::border_only_style`]) is the one the frame metrics'
/// border is read from: classifying against that rectangle's top is
/// classifying against the negated top border of the metrics.
pub proof fn lemma_hit_frame_is_metrics_border(
    frame: Rect,
    with_titlebar: Rect,
    window_top: int,
    height: int,
    y: int,
)
    requires
        crate::metrics::WindowFrameMetrics::readable_from(frame, with_titlebar),
    ensures
        ({
            let m = crate::metrics::WindowFrameMetrics::spec_from_adjusted(frame, with_titlebar);
            &&& m.border.left == -frame.left
            &&& m.border.top == -frame.top
            &&& m.border.right == frame.right
            &&& m.border.bottom == frame.bottom
            &&& spec_band_hit(window_top, frame.top as int, height, y)
                == spec_band_hit(window_top, -(m.border.top as int), height, y)
        }),
{
}

} // verus!

verus! {

/// The band classification over all inputs, in plain arithmetic on the band
/// height: a point in the rows `window_top .. window_top + height` is the top
/// sizing border (`HTTOP`, 12) while it lies above
/// `window_top - frame_top` and the caption (`HTCAPTION`, 2) from there on;
/// a point above the window top or at or below the end of the band is client
/// area (`HTCLIENT`, 1). The whole band of the requested height is caption or
/// border, whatever the height.
pub proof fn lemma_band_hit_by_rows(window_top: int, frame_top: int, height: int, y: int)
    ensures
        window_top <= y && y < window_top + height && y < window_top - frame_top
            ==> spec_band_hit(window_top, frame_top, height, y) == 12,
        window_top - frame_top <= y && window_top <= y && y < window_top + height
            ==> spec_band_hit(window_top, frame_top, height, y) == 2,
        y < window_top || y >= window_top + height ==> spec_band_hit(window_top, frame_top, height, y) == 1,
        (spec_band_hit(window_top, frame_top, height, y) != 1) <==> (window_top <= y && y < window_top + height),
{
}

/// A taller band never turns caption or border back into client area: a
/// point that a band of height `h1` does not place in the client area is
/// placed the same way by any band of height `h2 >= h1`.
pub proof fn lemma_band_grows_with_height(window_top: int, frame_top: int, h1: int, h2: int, y: int)
    requires
        h1 <= h2,
        spec_band_hit(window_top, frame_top, h1, y) != 1,
    ensures
        spec_band_hit(window_top, frame_top, h2, y) == spec_band_hit(window_top, frame_top, h1, y),
{
}

} // verus!
