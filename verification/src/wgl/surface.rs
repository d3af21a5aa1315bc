//! WGL surfaces: which surfaces can be made, the pbuffer attributes, the swap interval a
//! surface takes, and the guard that restores the context that was current before.
use vstd::prelude::*;

use super::consts as wgl;
use crate::config::NativeWindowHandle;
use crate::error::{CreationError, Error, ErrorKind};
use crate::surface::SwapInterval;

verus! {

/// The two kinds of WGL surface.
#[derive(Debug, Clone, Copy, PartialEq, Eq, Structural)]
pub enum WglSurfaceKind {
    /// A window and its device context.
    Window,
    /// A pbuffer and its device context.
    PBuffer,
}

/// WGL offers no pixmap surfaces.
pub fn create_pixmap_surface() -> (r: Result<(), Error>)
    ensures
        r matches Err(e) && e.kind == ErrorKind::NotSupported("pixmaps are not implemented with WGL"),
{
    Err(Error::from_kind(ErrorKind::NotSupported("pixmaps are not implemented with WGL")))
}

/// Pbuffers need the extension functions and `WGL_ARB_pbuffer`.
pub fn check_pbuffer_support(extra_loaded: bool, has_pbuffer_extension: bool) -> (r: Result<
    (),
    Error,
>)
    ensures
        r is Ok <==> extra_loaded && has_pbuffer_extension,
        r matches Err(e) ==> e.kind == ErrorKind::NotSupported("pbuffer extensions are not supported"),
{
    if extra_loaded && has_pbuffer_extension {
        Ok(())
    } else {
        Err(Error::from_kind(ErrorKind::NotSupported("pbuffer extensions are not supported")))
    }
}

/// The zero terminated attribute list of a pbuffer: the largest one available when it can't
/// be had at the size asked for where `largest_pbuffer`, else an empty pair.
pub open spec fn pbuffer_attribute_list(largest_pbuffer: bool) -> Seq<i32> {
    if largest_pbuffer {
        seq![wgl::PBUFFER_LARGEST_ARB, 1i32, 0i32]
    } else {
        seq![0i32, 0i32, 0i32]
    }
}

/// The size and the zero terminated attribute list `wglCreatePbufferARB` gets.
pub fn pbuffer_request(width: u32, height: u32, largest_pbuffer: bool) -> (r: (i32, i32, Vec<i32>))
    requires
        width > 0,
        height > 0,
    ensures
        r.0 == width as i32,
        r.1 == height as i32,
        r.2@ == pbuffer_attribute_list(largest_pbuffer),
{
    let mut attrs: Vec<i32> = Vec::new();
    if largest_pbuffer {
        attrs.push(wgl::PBUFFER_LARGEST_ARB);
        attrs.push(1);
    } else {
        attrs.push(0);
        attrs.push(0);
    }
    attrs.push(0);
    proof {
        if largest_pbuffer {
            assert(attrs@ =~= seq![wgl::PBUFFER_LARGEST_ARB, 1i32, 0i32]);
        } else {
            assert(attrs@ =~= seq![0i32, 0i32, 0i32]);
        }
    }
    (width as i32, height as i32, attrs)
}

/// The window of a window surface: only a Win32 window has one.
pub fn window_surface_target(handle: NativeWindowHandle) -> (r: Result<isize, Error>)
    ensures
        handle matches NativeWindowHandle::Win32 { hwnd, .. } ==> r == Ok::<isize, Error>(hwnd),
        !(handle is Win32) ==> (r matches Err(e) && e.kind == ErrorKind::NotSupported(
            "provided native window is not supported",
        )),
{
    match handle {
        NativeWindowHandle::Win32 { hwnd, .. } => Ok(hwnd),
        _ => Err(Error::from_kind(ErrorKind::NotSupported("provided native window is not supported"))),
    }
}

/// The extent between two edges of a client rectangle, where `GetClientRect` succeeded.
pub fn client_extent(ok: bool, low: i32, high: i32) -> (r: Option<u32>)
    ensures
        !ok ==> r is None,
        ok ==> r == Some(high.wrapping_sub(low) as u32),
{
    if ok {
        Some(high.wrapping_sub(low) as u32)
    } else {
        None
    }
}

/// The value of a pbuffer attribute, where `wglQueryPbufferARB` succeeded.
pub fn pbuffer_extent(ok: bool, value: i32) -> (r: Option<u32>)
    ensures
        !ok ==> r is None,
        ok ==> r == Some(value as u32),
{
    if ok {
        Some(value as u32)
    } else {
        None
    }
}

/// The interval `wglSwapIntervalEXT` gets: only window surfaces have one, and only where the
/// extension functions are loaded and the display has swap control.
pub fn swap_interval_request(kind: WglSurfaceKind, swap_control: bool, interval: SwapInterval) -> (r:
    Result<u32, Error>)
    ensures
        kind is PBuffer ==> (r matches Err(e) && e.kind == ErrorKind::NotSupported(
            "swap control not supported for surface",
        )),
        kind is Window && !swap_control ==> (r matches Err(e) && e.kind == ErrorKind::NotSupported(
            "swap control extensions are not supported",
        )),
        kind is Window && swap_control ==> r == Ok::<u32, Error>(
            match interval {
                SwapInterval::DontWait => 0u32,
                SwapInterval::Wait(n) => n,
            },
        ),
{
    match kind {
        WglSurfaceKind::Window => {
            if !swap_control {
                return Err(
                    Error::from_kind(
                        ErrorKind::NotSupported("swap control extensions are not supported"),
                    ),
                );
            }
            match interval {
                SwapInterval::DontWait => Ok(0),
                SwapInterval::Wait(n) => Ok(n),
            }
        },
        WglSurfaceKind::PBuffer => Err(
            Error::from_kind(ErrorKind::NotSupported("swap control not supported for surface")),
        ),
    }
}

/// The message of a failed `wglMakeCurrent`: a fixed head, then the description of the OS
/// error.
pub fn make_current_message(os_error: &str) -> (r: String)
    ensures
        r@ == "wglMakeCurrent function failed: "@ + os_error@,
{
    let head = String::from_str("wglMakeCurrent function failed: ");
    head.concat(os_error)
}

/// A guard over a context made current, which gives back the binding that was current before.
#[derive(Debug, Clone, Copy, PartialEq, Eq, Structural)]
pub struct CurrentContextGuard {
    previous_hdc: usize,
    previous_hglrc: usize,
}

impl CurrentContextGuard {
    /// The guard over a `wglMakeCurrent` that returned `made_current`, the binding before it
    /// being `previous_hdc` and `previous_hglrc`; `os_error` describes a failure.
    pub fn make_current(
        previous_hdc: usize,
        previous_hglrc: usize,
        made_current: bool,
        os_error: &str,
    ) -> (r: Result<CurrentContextGuard, CreationError>)
        ensures
            r is Ok <==> made_current,
            r matches Ok(g) ==> g.restore_target() == (previous_hdc, previous_hglrc),
            r matches Err(e) ==> (e matches CreationError::OsError(m) && m@
                == "wglMakeCurrent function failed: "@ + os_error@),
    {
        if !made_current {
            return Err(CreationError::OsError(make_current_message(os_error)));
        }
        CurrentContextGuard { previous_hdc, previous_hglrc }.into_ok()
    }

    fn into_ok(self) -> (r: Result<CurrentContextGuard, CreationError>)
        ensures
            r == Ok::<CurrentContextGuard, CreationError>(self),
    {
        Ok(self)
    }

    /// The binding restored when the guard goes.
    pub closed spec fn restore_target(self) -> (usize, usize) {
        (self.previous_hdc, self.previous_hglrc)
    }

    /// The device context and context `wglMakeCurrent` gets when the guard goes: those current
    /// before it.
    pub fn restore(&self) -> (r: (usize, usize))
        ensures
            r == self.restore_target(),
    {
        (self.previous_hdc, self.previous_hglrc)
    }
}

} // verus!
