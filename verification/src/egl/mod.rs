//! EGL platform Api: the decisions and attribute lists around the EGL calls.
use vstd::prelude::*;

use crate::error::{Error, ErrorKind};

pub mod config;
pub mod config_laws;
pub mod consts;
pub mod context;
pub mod context_laws;
pub mod device;
pub mod laws;
pub mod display;
pub mod legacy;
pub mod legacy_laws;
pub mod make_current_guard;
pub mod surface;
pub mod sync;

use consts as egl;

verus! {

/// The error kind an `eglGetError` code stands for; `None` for `EGL_SUCCESS`.
pub open spec fn spec_error_kind(code: u32) -> Option<ErrorKind> {
    if code == egl::SUCCESS {
        None
    } else if code == egl::NOT_INITIALIZED {
        Some(ErrorKind::InitializationFailed)
    } else if code == egl::BAD_ACCESS {
        Some(ErrorKind::BadAccess)
    } else if code == egl::BAD_ALLOC {
        Some(ErrorKind::OutOfMemory)
    } else if code == egl::BAD_ATTRIBUTE {
        Some(ErrorKind::BadAttribute)
    } else if code == egl::BAD_CONTEXT {
        Some(ErrorKind::BadContext)
    } else if code == egl::BAD_CONFIG {
        Some(ErrorKind::BadConfig)
    } else if code == egl::BAD_CURRENT_SURFACE {
        Some(ErrorKind::BadCurrentSurface)
    } else if code == egl::BAD_DISPLAY {
        Some(ErrorKind::BadDisplay)
    } else if code == egl::BAD_SURFACE {
        Some(ErrorKind::BadSurface)
    } else if code == egl::BAD_MATCH {
        Some(ErrorKind::BadMatch)
    } else if code == egl::BAD_PARAMETER {
        Some(ErrorKind::BadParameter)
    } else if code == egl::BAD_NATIVE_PIXMAP {
        Some(ErrorKind::BadNativePixmap)
    } else if code == egl::BAD_NATIVE_WINDOW {
        Some(ErrorKind::BadNativeWindow)
    } else if code == egl::CONTEXT_LOST {
        Some(ErrorKind::ContextLost)
    } else {
        Some(ErrorKind::Misc)
    }
}

/// Turn the code that `eglGetError` returned into a result: `Ok` for `EGL_SUCCESS`, else an
/// error of the matching kind that carries the raw code.
pub fn check_error(raw_code: u32) -> (r: Result<(), Error>)
    ensures
        r is Ok <==> raw_code == egl::SUCCESS,
        r matches Err(e) ==> spec_error_kind(raw_code) == Some(e.kind) && e.raw_code == Some(
            raw_code as i64,
        ) && e.raw_os_message is None,
{
    let kind = if raw_code == egl::SUCCESS {
        return Ok(());
    } else if raw_code == egl::NOT_INITIALIZED {
        ErrorKind::InitializationFailed
    } else if raw_code == egl::BAD_ACCESS {
        ErrorKind::BadAccess
    } else if raw_code == egl::BAD_ALLOC {
        ErrorKind::OutOfMemory
    } else if raw_code == egl::BAD_ATTRIBUTE {
        ErrorKind::BadAttribute
    } else if raw_code == egl::BAD_CONTEXT {
        ErrorKind::BadContext
    } else if raw_code == egl::BAD_CONFIG {
        ErrorKind::BadConfig
    } else if raw_code == egl::BAD_CURRENT_SURFACE {
        ErrorKind::BadCurrentSurface
    } else if raw_code == egl::BAD_DISPLAY {
        ErrorKind::BadDisplay
    } else if raw_code == egl::BAD_SURFACE {
        ErrorKind::BadSurface
    } else if raw_code == egl::BAD_MATCH {
        ErrorKind::BadMatch
    } else if raw_code == egl::BAD_PARAMETER {
        ErrorKind::BadParameter
    } else if raw_code == egl::BAD_NATIVE_PIXMAP {
        ErrorKind::BadNativePixmap
    } else if raw_code == egl::BAD_NATIVE_WINDOW {
        ErrorKind::BadNativeWindow
    } else if raw_code == egl::CONTEXT_LOST {
        ErrorKind::ContextLost
    } else {
        ErrorKind::Misc
    };
    Err(Error::new(Some(raw_code as i64), None, kind))
}

/// The error of a call that failed, as `eglGetError` reports it; the call's failure means the
/// code is not `EGL_SUCCESS`.
pub fn failure(error_code: u32) -> (e: Error)
    requires
        error_code != egl::SUCCESS,
    ensures
        spec_error_kind(error_code) == Some(e.kind),
        e.raw_code == Some(error_code as i64),
        e.raw_os_message is None,
{
    match check_error(error_code) {
        Err(e) => e,
        Ok(()) => Error::new(Some(error_code as i64), None, ErrorKind::Misc),
    }
}

/// The result of a call that returns `EGL_FALSE` on failure: success, or what `eglGetError`
/// reports then (which may be no error at all).
pub fn check_call(succeeded: bool, error_code: u32) -> (r: Result<(), Error>)
    ensures
        succeeded ==> r is Ok,
        !succeeded ==> (r is Ok <==> error_code == egl::SUCCESS),
        !succeeded ==> (r matches Err(e) ==> spec_error_kind(error_code) == Some(e.kind)
            && e.raw_code == Some(error_code as i64)),
{
    if succeeded {
        Ok(())
    } else {
        check_error(error_code)
    }
}

/// A handle an EGL call returned, checked: the null handle is the error `eglGetError`
/// reported.
pub fn check_handle(handle: usize, error_code: u32) -> (r: Result<usize, Error>)
    requires
        handle == 0 ==> error_code != egl::SUCCESS,
    ensures
        handle != 0 ==> r == Ok::<usize, Error>(handle),
        handle == 0 ==> (r matches Err(e) && spec_error_kind(error_code) == Some(e.kind)
            && e.raw_code == Some(error_code as i64)),
{
    if handle != 0 {
        Ok(handle)
    } else {
        Err(failure(error_code))
    }
}

} // verus!
