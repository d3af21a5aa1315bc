//! The GLX platform Api: how an X error is classified, the slot the last GLX error is kept in,
//! what a display needs to be used, and the features its extensions give.
use vstd::prelude::*;
use vstd::string::StringSliceAdditionalSpecFns;

use crate::config::{DisplayFeatures, NativeDisplayHandle};
use crate::context::Version;
use crate::error::{Error, ErrorKind};
use crate::extensions::ExtensionSet;

pub mod config;
pub mod config_laws;
pub mod laws;
pub mod consts;
pub mod context;
pub mod context_laws;
pub mod make_current_guard;
pub mod surface;

use consts as glx;

verus! {

/// The kind of a GLX protocol error, by its code relative to the GLX error base; `None` for a
/// code GLX does not define.
pub open spec fn spec_glx_proto_kind(glx_code: u32) -> Option<ErrorKind> {
    if glx_code == glx::PROTO_BAD_CONTEXT || glx_code == glx::PROTO_BAD_CONTEXT_STATE {
        Some(ErrorKind::BadContext)
    } else if glx_code == glx::PROTO_BAD_CURRENT_DRAWABLE || glx_code
        == glx::PROTO_BAD_CURRENT_WINDOW {
        Some(ErrorKind::BadCurrentSurface)
    } else if glx_code == glx::PROTO_BAD_FBCONFIG {
        Some(ErrorKind::BadConfig)
    } else if glx_code == glx::PROTO_BAD_PBUFFER {
        Some(ErrorKind::BadPbuffer)
    } else if glx_code == glx::PROTO_BAD_PIXMAP {
        Some(ErrorKind::BadPixmap)
    } else if glx_code == glx::PROTO_BAD_DRAWABLE || glx_code == glx::PROTO_BAD_WINDOW {
        Some(ErrorKind::BadSurface)
    } else if glx_code == glx::PROTO_UNSUPPORTED_PRIVATE_REQUEST || glx_code
        == glx::PROTO_BAD_CONTEXT_TAG || glx_code == glx::PROTO_BAD_RENDER_REQUEST || glx_code
        == glx::PROTO_BAD_LARGE_REQUEST {
        Some(ErrorKind::Misc)
    } else {
        None
    }
}

/// The kind of an X error: the core Xlib errors first, then the GLX protocol errors, counted
/// from the GLX error base. `None` for an error that is not GLX's to handle.
pub open spec fn spec_x_error_kind(code: u8, glx_error_base: i32) -> Option<ErrorKind> {
    if code == glx::X_BAD_VALUE {
        Some(ErrorKind::BadAttribute)
    } else if code == glx::X_BAD_MATCH {
        Some(ErrorKind::BadMatch)
    } else if code == glx::X_BAD_WINDOW {
        Some(ErrorKind::BadNativeWindow)
    } else if code == glx::X_BAD_ALLOC {
        Some(ErrorKind::OutOfMemory)
    } else if code == glx::X_BAD_PIXMAP {
        Some(ErrorKind::BadPixmap)
    } else if code == glx::X_BAD_ACCESS {
        Some(ErrorKind::BadAccess)
    } else if code - glx_error_base >= 0 {
        spec_glx_proto_kind((code - glx_error_base) as u32)
    } else {
        None
    }
}

/// Classify an X error for the GLX error hook; `None` leaves it to other hooks.
pub fn classify_x_error(code: u8, glx_error_base: i32) -> (r: Option<ErrorKind>)
    requires
        glx_error_base > i32::MIN + 256,
    ensures
        r == spec_x_error_kind(code, glx_error_base),
{
    if code == glx::X_BAD_VALUE {
        Some(ErrorKind::BadAttribute)
    } else if code == glx::X_BAD_MATCH {
        Some(ErrorKind::BadMatch)
    } else if code == glx::X_BAD_WINDOW {
        Some(ErrorKind::BadNativeWindow)
    } else if code == glx::X_BAD_ALLOC {
        Some(ErrorKind::OutOfMemory)
    } else if code == glx::X_BAD_PIXMAP {
        Some(ErrorKind::BadPixmap)
    } else if code == glx::X_BAD_ACCESS {
        Some(ErrorKind::BadAccess)
    } else {
        let glx_code: i32 = code as i32 - glx_error_base;
        if glx_code >= 0 {
            let c = glx_code as u32;
            if c == glx::PROTO_BAD_CONTEXT || c == glx::PROTO_BAD_CONTEXT_STATE {
                Some(ErrorKind::BadContext)
            } else if c == glx::PROTO_BAD_CURRENT_DRAWABLE || c == glx::PROTO_BAD_CURRENT_WINDOW {
                Some(ErrorKind::BadCurrentSurface)
            } else if c == glx::PROTO_BAD_FBCONFIG {
                Some(ErrorKind::BadConfig)
            } else if c == glx::PROTO_BAD_PBUFFER {
                Some(ErrorKind::BadPbuffer)
            } else if c == glx::PROTO_BAD_PIXMAP {
                Some(ErrorKind::BadPixmap)
            } else if c == glx::PROTO_BAD_DRAWABLE || c == glx::PROTO_BAD_WINDOW {
                Some(ErrorKind::BadSurface)
            } else if c == glx::PROTO_UNSUPPORTED_PRIVATE_REQUEST || c
                == glx::PROTO_BAD_CONTEXT_TAG || c == glx::PROTO_BAD_RENDER_REQUEST || c
                == glx::PROTO_BAD_LARGE_REQUEST {
                Some(ErrorKind::Misc)
            } else {
                None
            }
        } else {
            None
        }
    }
}

/// The last GLX error the hook stored and nobody took yet.
#[derive(Debug, Clone, PartialEq, Eq)]
pub struct LastGlxError {
    last: Option<Error>,
}

impl LastGlxError {
    /// The error waiting to be taken, if any.
    pub closed spec fn spec_last(&self) -> Option<Error> {
        self.last
    }

    /// No error waits.
    pub fn new() -> (r: Self)
        ensures
            r.spec_last() is None,
    {
        LastGlxError { last: None }
    }

    /// The hook saw an X error of code `code` that it classified as `kind`; `description` is the
    /// text Xlib gives for the code. It replaces any error not taken yet.
    pub fn store(&mut self, code: u8, kind: ErrorKind, description: String)
        ensures
            final(self).spec_last() == Some(
                Error { raw_code: Some(code as i64), raw_os_message: Some(description), kind },
            ),
    {
        self.last = Some(Error::new(Some(code as i64), Some(description), kind));
    }

    /// Take the error that arrived since the last time, leaving none.
    pub fn take(&mut self) -> (r: Result<(), Error>)
        ensures
            final(self).spec_last() is None,
            old(self).spec_last() is None ==> r is Ok,
            old(self).spec_last() matches Some(e) ==> r == Err::<(), Error>(e),
    {
        match self.last.take() {
            Some(e) => Err(e),
            None => Ok(()),
        }
    }
}

/// The Xlib display and screen a GLX display is made on.
pub fn xlib_display(handle: NativeDisplayHandle) -> (r: Result<(usize, i32), Error>)
    ensures
        handle matches NativeDisplayHandle::Xlib { display, screen } ==> (if display == 0 {
            r matches Err(e) && e.kind == ErrorKind::BadDisplay
        } else {
            r == Ok::<(usize, i32), Error>((display, screen))
        }),
        !(handle is Xlib) ==> (r matches Err(e) && e.kind == ErrorKind::NotSupported(
            "provided native display isn't supported",
        )),
{
    match handle {
        NativeDisplayHandle::Xlib { display, screen } => {
            if display == 0 {
                Err(Error::from_kind(ErrorKind::BadDisplay))
            } else {
                Ok((display, screen))
            }
        },
        _ => Err(Error::from_kind(ErrorKind::NotSupported("provided native display isn't supported"))),
    }
}

/// The version of GLX a display reports, checked: the query must succeed and give 1.3 or newer.
pub fn check_version(queried: Option<(i32, i32)>) -> (r: Result<Version, Error>)
    ensures
        queried is None ==> (r matches Err(e) && e.kind == ErrorKind::InitializationFailed),
        queried matches Some((major, minor)) ==> {
            let v = Version { major: major as u8, minor: minor as u8 };
            &&& (v.spec_at_least(Version { major: 1, minor: 3 }) ==> r == Ok::<Version, Error>(v))
            &&& (!v.spec_at_least(Version { major: 1, minor: 3 }) ==> (r matches Err(e) && e.kind
                == ErrorKind::NotSupported("the glx below 1.3 isn't supported")))
        },
{
    match queried {
        None => Err(Error::from_kind(ErrorKind::InitializationFailed)),
        Some((major, minor)) => {
            let v = Version::new(major as u8, minor as u8);
            if !v.at_least(1, 3) {
                Err(Error::from_kind(ErrorKind::NotSupported("the glx below 1.3 isn't supported")))
            } else {
                Ok(v)
            }
        },
    }
}

/// The features a display has by its GLX extensions and version.
pub open spec fn spec_display_features(exts: Set<Seq<u8>>, version: Version) -> DisplayFeatures {
    DisplayFeatures {
        multisampling_pixel_formats: version.spec_at_least(Version { major: 1, minor: 4 })
            || exts.contains("GLX_ARB_multisample".spec_bytes()),
        float_pixel_format: exts.contains("GLX_ARB_fbconfig_float".spec_bytes()),
        srgb_framebuffers: exts.contains("GLX_ARB_framebuffer_sRGB".spec_bytes()) || exts.contains(
            "GLX_EXT_framebuffer_sRGB".spec_bytes(),
        ),
        create_es_context: exts.contains("GLX_EXT_create_context_es2_profile".spec_bytes())
            || exts.contains("GLX_EXT_create_context_es_profile".spec_bytes()),
        swap_control: exts.contains("GLX_EXT_swap_control".spec_bytes()) || exts.contains(
            "GLX_SGI_swap_control".spec_bytes(),
        ) || exts.contains("GLX_MESA_swap_control".spec_bytes()),
        context_robustness: exts.contains("GLX_ARB_create_context_robustness".spec_bytes()),
        context_release_behavior: exts.contains("GLX_ARB_context_flush_control".spec_bytes()),
        context_no_error: exts.contains("GLX_ARB_create_context_no_error".spec_bytes()),
    }
}

/// The features a display has by its GLX extensions and version.
pub fn extract_display_features(exts: &ExtensionSet, version: Version) -> (r: DisplayFeatures)
    ensures
        r == spec_display_features(exts@, version),
{
    DisplayFeatures {
        multisampling_pixel_formats: version.at_least(1, 4) || exts.contains("GLX_ARB_multisample"),
        float_pixel_format: exts.contains("GLX_ARB_fbconfig_float"),
        srgb_framebuffers: exts.contains("GLX_ARB_framebuffer_sRGB") || exts.contains(
            "GLX_EXT_framebuffer_sRGB",
        ),
        create_es_context: exts.contains("GLX_EXT_create_context_es2_profile") || exts.contains(
            "GLX_EXT_create_context_es_profile",
        ),
        swap_control: exts.contains("GLX_EXT_swap_control") || exts.contains(
            "GLX_SGI_swap_control",
        ) || exts.contains("GLX_MESA_swap_control"),
        context_robustness: exts.contains("GLX_ARB_create_context_robustness"),
        context_release_behavior: exts.contains("GLX_ARB_context_flush_control"),
        context_no_error: exts.contains("GLX_ARB_create_context_no_error"),
    }
}

} // verus!
