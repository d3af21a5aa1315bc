//! EGL displays: the platform and native display each of the three display queries gets for a
//! native display handle, when one query falls back to the next, and the version an
//! initialized display reports.
use vstd::prelude::*;
use vstd::string::StringSliceAdditionalSpecFns;

use super::consts as egl;
use crate::config::NativeDisplayHandle;
use crate::context::Version;
use crate::error::{Error, ErrorKind};
use crate::extensions::ExtensionSet;

verus! {

/// How an EGL display was obtained, with its handle.
#[derive(Debug, Clone, Copy, PartialEq, Eq, Structural)]
pub enum EglDisplay {
    /// Through `eglGetPlatformDisplay` (EGL 1.5).
    Khr(usize),
    /// Through `eglGetPlatformDisplayEXT`.
    Ext(usize),
    /// Through `eglGetDisplay`.
    Legacy(usize),
}

/// What `eglGetPlatformDisplay` gets for a native display, given the client extensions; `None`
/// for a display it cannot take.
pub open spec fn spec_khr_request(handle: NativeDisplayHandle, exts: Set<Seq<u8>>) -> Option<
    (u32, usize, Seq<isize>),
> {
    match handle {
        NativeDisplayHandle::Wayland { display } if exts.contains(
            "EGL_KHR_platform_wayland".spec_bytes(),
        ) => Some((egl::PLATFORM_WAYLAND_KHR, display, seq![egl::NONE as isize])),
        NativeDisplayHandle::Xlib { display, screen } if exts.contains(
            "EGL_KHR_platform_x11".spec_bytes(),
        ) => Some(
            (
                egl::PLATFORM_X11_KHR,
                display,
                seq![egl::PLATFORM_X11_SCREEN_KHR, screen as isize, egl::NONE as isize],
            ),
        ),
        NativeDisplayHandle::Gbm { gbm_device } if exts.contains(
            "EGL_KHR_platform_gbm".spec_bytes(),
        ) => Some((egl::PLATFORM_GBM_KHR, gbm_device, seq![egl::NONE as isize])),
        NativeDisplayHandle::Android if exts.contains("EGL_KHR_platform_android".spec_bytes()) => Some(
            (egl::PLATFORM_ANDROID_KHR, 0usize, seq![egl::NONE as isize]),
        ),
        _ => None,
    }
}

/// The platform, native display (zero for the default one) and zero terminated attribute list
/// `eglGetPlatformDisplay` gets.
pub fn khr_display_request(
    loaded: bool,
    handle: NativeDisplayHandle,
    exts: &ExtensionSet,
) -> (r: Result<(u32, usize, Vec<isize>), Error>)
    ensures
        !loaded ==> (r matches Err(e) && e.kind == ErrorKind::NotSupported(
            "eglGetPlatformDisplay is not supported",
        )),
        loaded && spec_khr_request(handle, exts@) is None ==> (r matches Err(e) && e.kind
            == ErrorKind::NotSupported("provided display handle is not supported")),
        loaded ==> (spec_khr_request(handle, exts@) matches Some((p, d, a)) ==> (r matches Ok(
            (rp, rd, ra),
        ) && rp == p && rd == d && ra@ == a)),
{
    if !loaded {
        return Err(Error::from_kind(ErrorKind::NotSupported("eglGetPlatformDisplay is not supported")));
    }
    let mut attrs: Vec<isize> = Vec::new();
    let (platform, display) = match handle {
        NativeDisplayHandle::Wayland { display } if exts.contains("EGL_KHR_platform_wayland") => {
            (egl::PLATFORM_WAYLAND_KHR, display)
        },
        NativeDisplayHandle::Xlib { display, screen } if exts.contains("EGL_KHR_platform_x11") => {
            attrs.push(egl::PLATFORM_X11_SCREEN_KHR);
            attrs.push(screen as isize);
            (egl::PLATFORM_X11_KHR, display)
        },
        NativeDisplayHandle::Gbm { gbm_device } if exts.contains("EGL_KHR_platform_gbm") => {
            (egl::PLATFORM_GBM_KHR, gbm_device)
        },
        NativeDisplayHandle::Android if exts.contains("EGL_KHR_platform_android") => {
            (egl::PLATFORM_ANDROID_KHR, 0)
        },
        _ => {
            return Err(
                Error::from_kind(ErrorKind::NotSupported("provided display handle is not supported")),
            );
        },
    };
    attrs.push(egl::NONE as isize);
    proof {
        let sp = spec_khr_request(handle, exts@);
        assert(sp is Some);
        let t = sp->0;
        assert(attrs@ =~= t.2);
    }
    Ok((platform, display, attrs))
}

/// What `eglGetPlatformDisplayEXT` gets for a native display, given the client extensions;
/// `None` for a display it cannot take. An XCB display passes its screen under the platform's
/// own enumerant.
pub open spec fn spec_ext_request(handle: NativeDisplayHandle, exts: Set<Seq<u8>>) -> Option<
    (u32, usize, Seq<i32>),
> {
    match handle {
        NativeDisplayHandle::Wayland { display } if exts.contains(
            "EGL_EXT_platform_wayland".spec_bytes(),
        ) => Some((egl::PLATFORM_WAYLAND_EXT, display, seq![egl::NONE])),
        NativeDisplayHandle::Xlib { display, screen } if exts.contains(
            "EGL_EXT_platform_x11".spec_bytes(),
        ) => Some((egl::PLATFORM_X11_EXT, display, seq![egl::PLATFORM_X11_SCREEN_EXT, screen, egl::NONE])),
        NativeDisplayHandle::Xcb { connection, screen } if exts.contains(
            "EGL_MESA_platform_xcb".spec_bytes(),
        ) || exts.contains("EGL_EXT_platform_xcb".spec_bytes()) => Some(
            (egl::PLATFORM_XCB_EXT, connection, seq![egl::PLATFORM_XCB_EXT_ATTRIB, screen, egl::NONE]),
        ),
        NativeDisplayHandle::Gbm { gbm_device } if exts.contains(
            "EGL_MESA_platform_gbm".spec_bytes(),
        ) => Some((egl::PLATFORM_GBM_MESA, gbm_device, seq![egl::NONE])),
        _ => None,
    }
}

/// The platform, native display and zero terminated attribute list
/// `eglGetPlatformDisplayEXT` gets.
pub fn ext_display_request(
    loaded: bool,
    handle: NativeDisplayHandle,
    exts: &ExtensionSet,
) -> (r: Result<(u32, usize, Vec<i32>), Error>)
    ensures
        !loaded ==> (r matches Err(e) && e.kind == ErrorKind::NotSupported(
            "eglGetPlatformDisplayEXT is not supported",
        )),
        loaded && spec_ext_request(handle, exts@) is None ==> (r matches Err(e) && e.kind
            == ErrorKind::NotSupported("provided display handle is not supported")),
        loaded ==> (spec_ext_request(handle, exts@) matches Some((p, d, a)) ==> (r matches Ok(
            (rp, rd, ra),
        ) && rp == p && rd == d && ra@ == a)),
{
    if !loaded {
        return Err(
            Error::from_kind(ErrorKind::NotSupported("eglGetPlatformDisplayEXT is not supported")),
        );
    }
    let mut attrs: Vec<i32> = Vec::new();
    let (platform, display) = match handle {
        NativeDisplayHandle::Wayland { display } if exts.contains("EGL_EXT_platform_wayland") => {
            (egl::PLATFORM_WAYLAND_EXT, display)
        },
        NativeDisplayHandle::Xlib { display, screen } if exts.contains("EGL_EXT_platform_x11") => {
            attrs.push(egl::PLATFORM_X11_SCREEN_EXT);
            attrs.push(screen);
            (egl::PLATFORM_X11_EXT, display)
        },
        NativeDisplayHandle::Xcb { connection, screen } if exts.contains("EGL_MESA_platform_xcb")
            || exts.contains("EGL_EXT_platform_xcb") => {
            attrs.push(egl::PLATFORM_XCB_EXT_ATTRIB);
            attrs.push(screen);
            (egl::PLATFORM_XCB_EXT, connection)
        },
        NativeDisplayHandle::Gbm { gbm_device } if exts.contains("EGL_MESA_platform_gbm") => {
            (egl::PLATFORM_GBM_MESA, gbm_device)
        },
        _ => {
            return Err(
                Error::from_kind(ErrorKind::NotSupported("provided display handle is not supported")),
            );
        },
    };
    attrs.push(egl::NONE);
    proof {
        let sp = spec_ext_request(handle, exts@);
        assert(sp is Some);
        let t = sp->0;
        assert(attrs@ =~= t.2);
    }
    Ok((platform, display, attrs))
}

/// The native display `eglGetDisplay` gets: a GBM device, an Xlib display or the default
/// display for Android.
pub fn legacy_display_request(handle: NativeDisplayHandle) -> (r: Result<usize, Error>)
    ensures
        handle matches NativeDisplayHandle::Gbm { gbm_device } ==> r == Ok::<usize, Error>(
            gbm_device,
        ),
        handle matches NativeDisplayHandle::Xlib { display, .. } ==> r == Ok::<usize, Error>(
            display,
        ),
        handle is Android ==> r == Ok::<usize, Error>(0),
        !(handle is Gbm || handle is Xlib || handle is Android) ==> (r matches Err(e) && e.kind
            == ErrorKind::NotSupported("provided display handle is not supported")),
{
    match handle {
        NativeDisplayHandle::Gbm { gbm_device } => Ok(gbm_device),
        NativeDisplayHandle::Xlib { display, .. } => Ok(display),
        NativeDisplayHandle::Android => Ok(0),
        _ => Err(Error::from_kind(ErrorKind::NotSupported("provided display handle is not supported"))),
    }
}

/// The display a query returned, checked: `EGL_NO_DISPLAY` is the error `eglGetError`
/// reported.
pub fn check_display(display: usize, error_code: u32) -> (r: Result<usize, Error>)
    requires
        display == 0 ==> error_code != egl::SUCCESS,
    ensures
        display != 0 ==> r == Ok::<usize, Error>(display),
        display == 0 ==> (r matches Err(e) && super::spec_error_kind(error_code) == Some(e.kind)
            && e.raw_code == Some(error_code as i64)),
{
    if display != 0 {
        Ok(display)
    } else {
        match super::check_error(error_code) {
            Err(e) => Err(e),
            Ok(()) => Ok(display),
        }
    }
}

/// Whether a failed query falls back to the next one: every error but a bad attribute does.
pub fn falls_back(error: &Error) -> (r: bool)
    ensures
        r == (error.kind != ErrorKind::BadAttribute),
{
    match error.kind {
        ErrorKind::BadAttribute => false,
        _ => true,
    }
}

/// The display of the three queries, tried in turn: the first that succeeds, or the error of
/// the last one tried. A query is tried only where the one before failed with an error that
/// falls back.
pub open spec fn spec_display_chain(
    khr: Result<usize, Error>,
    ext: Option<Result<usize, Error>>,
    legacy: Option<Result<usize, Error>>,
) -> bool {
    &&& (khr is Ok || (khr matches Err(e) && e.kind == ErrorKind::BadAttribute)) <==> ext is None
    &&& (ext matches Some(x) && (x is Err && !(x matches Err(e) && e.kind
        == ErrorKind::BadAttribute))) <==> legacy is Some
}

/// The outcome of the display queries tried in turn.
pub fn display_chain_outcome(
    khr: Result<usize, Error>,
    ext: Option<Result<usize, Error>>,
    legacy: Option<Result<usize, Error>>,
) -> (r: Result<EglDisplay, Error>)
    requires
        spec_display_chain(khr, ext, legacy),
    ensures
        khr matches Ok(d) ==> r == Ok::<EglDisplay, Error>(EglDisplay::Khr(d)),
        khr is Err ==> (ext matches Some(Ok(d)) ==> r == Ok::<EglDisplay, Error>(
            EglDisplay::Ext(d),
        )),
        legacy matches Some(Ok(d)) ==> r == Ok::<EglDisplay, Error>(EglDisplay::Legacy(d)),
        ext is None ==> (khr matches Err(e) ==> r == Err::<EglDisplay, Error>(e)),
        legacy is None ==> (ext matches Some(Err(e)) ==> r == Err::<EglDisplay, Error>(e)),
        legacy matches Some(Err(e)) ==> r == Err::<EglDisplay, Error>(e),
{
    match khr {
        Ok(d) => Ok(EglDisplay::Khr(d)),
        Err(e) => match ext {
            None => Err(e),
            Some(Ok(d)) => Ok(EglDisplay::Ext(d)),
            Some(Err(e2)) => match legacy {
                None => Err(e2),
                Some(Ok(d)) => Ok(EglDisplay::Legacy(d)),
                Some(Err(e3)) => Err(e3),
            },
        },
    }
}

/// The version `eglInitialize` reported, or the error `eglGetError` gave when it failed.
pub fn initialized_version(initialized: Option<(i32, i32)>, error_code: u32) -> (r: Result<
    Version,
    Error,
>)
    requires
        initialized is None ==> error_code != egl::SUCCESS,
    ensures
        initialized matches Some((major, minor)) ==> r == Ok::<Version, Error>(
            Version { major: major as u8, minor: minor as u8 },
        ),
        initialized is None ==> (r matches Err(e) && super::spec_error_kind(error_code) == Some(
            e.kind,
        ) && e.raw_code == Some(error_code as i64)),
{
    match initialized {
        Some((major, minor)) => Ok(Version::new(major as u8, minor as u8)),
        None => match super::check_error(error_code) {
            Err(e) => Err(e),
            Ok(()) => Ok(Version::new(0, 0)),
        },
    }
}

} // verus!
