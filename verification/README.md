# windows_window_subclass

Custom window frames on Win32 through window subclassing: extending the
Desktop Window Manager frame into the client area, moving the edges of the
client area, treating a band at the top of the window as title bar, and a
window procedure for a custom caption.

- `src/` is the verified library (Verus). It holds every decision the
  window procedures make and the arithmetic on rectangles and margins,
  each with its contract. Calls into the system are not made there: each
  window procedure either answers directly or returns a request (read a
  rectangle, extend the frame, call the default procedure, ...) that the
  host performs and answers. `custom_window` runs the custom-caption
  procedure as such a state machine; `caption_trace` proves that, driven by
  the system's answers, it makes the same calls in the same order as the
  procedure written out in one piece.
- `app/` is the Win32 host: the `WindowSubclass` and `SetSubclass` traits,
  installing subclasses with `SetWindowSubclass`, the calls into `winapi`,
  and a demo window built with `winit`. The Win32 parts are compiled on
  Windows only.
- `tests/` runs the library on concrete values.
