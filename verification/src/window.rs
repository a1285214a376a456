//! Native windows, as the windowing crate hands them over.

use vstd::prelude::*;
use raw_window_handle::RawWindowHandle;

verus! {

/// `RawWindowHandle` of the `raw_window_handle` crate, the enum of the
/// window handles of every windowing backend. It is taken as an opaque
/// type: nothing is claimed of what a value of it holds.
#[verifier::external_type_specification]
#[verifier::external_body]
pub struct ExRawWindowHandle(raw_window_handle::RawWindowHandle);

/// What this library reads of a native window: the backend it belongs to
/// and the addresses and identifiers by which the backend knows it. A window
/// of any other backend is `Unsupported`.
#[allow(inconsistent_fields)]
#[derive(Debug, Clone, Copy, PartialEq, Eq, Structural)]
pub enum WindowHandle {
    Xcb { connection: usize, window: u32 },
    Xlib { display: usize, window: u64 },
    Win32 { hinstance: usize, hwnd: usize },
    Unsupported,
}

/// What a raw window handle holds for this library.
pub uninterp spec fn spec_window_handle(raw: RawWindowHandle) -> WindowHandle;

/// Reads a raw window handle of the `raw_window_handle` crate by matching on
/// the variants of `RawWindowHandle`. The fields `connection` and `window`
/// of an `XcbHandle`, `display` and `window` of an `XlibHandle`, `hinstance`
/// and `hwnd` of a `Win32Handle` are carried over, pointers as their
/// addresses. The contract claims only that the result is a function of the
/// handle.
#[verifier::external_body]
pub(crate) fn window_handle(raw: &RawWindowHandle) -> (r: WindowHandle)
    ensures
        r == spec_window_handle(*raw),
{
    match raw {
        RawWindowHandle::Xcb(h) => WindowHandle::Xcb {
            connection: h.connection as usize,
            window: h.window,
        },
        RawWindowHandle::Xlib(h) => WindowHandle::Xlib {
            display: h.display as usize,
            window: h.window as u64,
        },
        RawWindowHandle::Win32(h) => WindowHandle::Win32 {
            hinstance: h.hinstance as usize,
            hwnd: h.hwnd as usize,
        },
        _ => WindowHandle::Unsupported,
    }
}

} // verus!
