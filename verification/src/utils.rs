//! Window-id extraction for window embedding.
//!
//! The engine embeds its video into a host window named by a single integer
//! option.  Each platform exposes that integer differently, and some not at
//! all: those fail with an explicit unsupported-platform error rather than
//! guessing.

use vstd::prelude::*;

use crate::error::Error;

verus! {

/// A platform window handle, reduced to the one integer each platform uses
/// to name a window.  The boundary layer fills this in from the windowing
/// system's own handle type.
#[derive(Debug, Clone, Copy, PartialEq)]
pub enum WindowHandle {
    /// A Win32 window handle value.
    Win32 { hwnd: i64 },
    /// An X11 window id as Xlib reports it.
    Xlib { window: u64 },
    /// An X11 window id as XCB reports it.
    Xcb { window: u32 },
    /// The AppKit view pointer value.
    AppKit { ns_view: i64 },
    /// Wayland exposes no stable integer window id for embedding.
    Wayland,
    /// Any other platform.
    Other,
}

/// Produces the integer window id used as the embedding option, or the
/// explicit unsupported-platform error where none exists.
pub fn get_wid(raw_window_handle: &WindowHandle) -> (r: Result<i64, Error>)
    ensures
        raw_window_handle matches WindowHandle::Win32 { hwnd } ==> r == Ok::<i64, Error>(*hwnd),
        raw_window_handle matches WindowHandle::Xlib { window } ==> r == Ok::<i64, Error>(
            *window as i64,
        ),
        raw_window_handle matches WindowHandle::Xcb { window } ==> r == Ok::<i64, Error>(
            *window as i64,
        ),
        raw_window_handle matches WindowHandle::AppKit { ns_view } ==> r == Ok::<i64, Error>(
            *ns_view,
        ),
        raw_window_handle is Wayland ==> (r matches Err(e) && e matches Error::UnsupportedPlatform(
            m,
        ) && m@ == "Window embedding via --wid is not supported on Wayland."@),
        raw_window_handle is Other ==> (r matches Err(e) && e matches Error::UnsupportedPlatform(
            m,
        ) && m@ == "Unsupported platform."@),
{
    match raw_window_handle {
        WindowHandle::Win32 { hwnd } => Ok(*hwnd),
        WindowHandle::Xlib { window } => Ok(#[verifier::truncate] (*window as i64)),
        WindowHandle::Xcb { window } => Ok(*window as i64),
        WindowHandle::AppKit { ns_view } => Ok(*ns_view),
        WindowHandle::Wayland => {
            proof {
                reveal_strlit("Window embedding via --wid is not supported on Wayland.");
            }
            Err(
                Error::UnsupportedPlatform(
                    "Window embedding via --wid is not supported on Wayland.".to_owned(),
                ),
            )
        },
        WindowHandle::Other => {
            proof {
                reveal_strlit("Unsupported platform.");
            }
            Err(Error::UnsupportedPlatform("Unsupported platform.".to_owned()))
        },
    }
}

} // verus!
