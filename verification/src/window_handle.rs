//! The window-handle boundary: the engine consumes one opaque native
//! window handle; asking for one on the wrong platform is a recoverable
//! configuration error, not a failure of any GPU resource.

use vstd::prelude::*;

verus! {

/// A native window handle, held as the platform's nonzero handle value.
#[derive(Clone, Copy, Debug, PartialEq, Eq, Structural)]
pub struct WindowHandle {
    pub hwnd: isize,
}

/// Returned when the platform hands over anything but a native window
/// handle: a legitimate configuration question, answered before any GPU
/// resource exists, so it is an error value rather than a panic.
#[derive(Clone, Copy, Debug, PartialEq, Eq, Structural)]
pub struct UnsupportedPlatformError;

impl UnsupportedPlatformError {
    /// The diagnostic this error prints.
    pub fn message(&self) -> (r: &'static str)
        ensures
            r@ == "Tried to get a Win32 handle on a non-Windows platform"@,
    {
        "Tried to get a Win32 handle on a non-Windows platform"
    }
}

/// What the windowing collaborator hands over: the native handle kind
/// the engine can drive, or some other platform's handle.
#[derive(Clone, Copy, Debug, PartialEq, Eq, Structural)]
pub enum RawHandleKind {
    Win32 { hwnd: isize },
    Other,
}

impl WindowHandle {
    /// Accepts exactly the native handle kind; every other platform's
    /// handle is answered with the recoverable error.
    pub fn try_from(handle: RawHandleKind) -> (r: Result<WindowHandle, UnsupportedPlatformError>)
        ensures
            r is Ok <==> handle is Win32,
            handle matches RawHandleKind::Win32 { hwnd } ==> r == Ok::<
                WindowHandle,
                UnsupportedPlatformError,
            >(WindowHandle { hwnd }),
            handle is Other ==> r == Err::<WindowHandle, UnsupportedPlatformError>(
                UnsupportedPlatformError,
            ),
    {
        match handle {
            RawHandleKind::Win32 { hwnd } => Ok(WindowHandle { hwnd }),
            RawHandleKind::Other => Err(UnsupportedPlatformError),
        }
    }
}

} // verus!
