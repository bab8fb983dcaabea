//! Decision logic for custom window frames on Win32: margins, frame
//! metrics, non-client size calculation, caption hit testing, and the
//! message-handling state machines of the window subclasses.
//!
//! Every call into the operating system is performed by the host; the
//! library decides which call to make and what to do with its answer.

pub mod win32;
pub mod rect;
pub mod metrics;
pub mod hit_test;
pub mod dwm_frame;
pub mod client_area;
pub mod custom_window;
pub mod caption_trace;
pub mod subclass;

pub use client_area::ClientArea;
pub use custom_window::CustomWindow;
pub use dwm_frame::{DwmFrame, ExtendFrame};
pub use hit_test::HitTest;
pub use metrics::{Margins, WindowFrameMetrics};
