//! The iOS (EAGL) backend: the rendering Api version a request asks for, the versions a
//! context is tried at, and the pixel format a GLKit view reports.
use vstd::prelude::*;

use crate::error::{ContextError, CreationError};
use crate::legacy::{GlApi, GlRequest, GlVersion, PixelFormat};

verus! {

/// `kEAGLRenderingAPIOpenGLES1`.
pub const EAGL_RENDERING_API_OPENGLES1: u64 = 1;
/// `kEAGLRenderingAPIOpenGLES3`.
pub const EAGL_RENDERING_API_OPENGLES3: u64 = 3;

/// The color format of a GLKit view's drawable.
#[derive(Debug, Clone, Copy, PartialEq, Eq, Structural)]
pub enum ColorFormat {
    /// `GLKViewDrawableColorFormatRGBA8888`.
    Rgba8888,
    /// `GLKViewDrawableColorFormatRGB565`.
    Rgb565,
    /// `GLKViewDrawableColorFormatSRGBA8888`.
    Srgba8888,
}

impl ColorFormat {
    /// The format of a view by its `drawableColorFormat`; the three values GLKit defines are 0,
    /// 1 and 2.
    pub fn for_view(drawable_color_format: u64) -> (r: ColorFormat)
        requires
            drawable_color_format <= 2,
        ensures
            drawable_color_format == 0 ==> r == ColorFormat::Rgba8888,
            drawable_color_format == 1 ==> r == ColorFormat::Rgb565,
            drawable_color_format == 2 ==> r == ColorFormat::Srgba8888,
    {
        if drawable_color_format == 0 {
            ColorFormat::Rgba8888
        } else if drawable_color_format == 1 {
            ColorFormat::Rgb565
        } else {
            ColorFormat::Srgba8888
        }
    }

    /// Bits per color component: 8 for the 32-bit formats, 16 for RGB565.
    pub fn color_bits(&self) -> (r: u8)
        ensures
            r == (if *self == ColorFormat::Rgba8888 || *self == ColorFormat::Srgba8888 {
                8u8
            } else {
                16u8
            }),
    {
        if *self == ColorFormat::Rgba8888 || *self == ColorFormat::Srgba8888 {
            8
        } else {
            16
        }
    }

    /// Bits of alpha: 8 for the 32-bit formats, none for RGB565.
    pub fn alpha_bits(&self) -> (r: u8)
        ensures
            r == (if *self == ColorFormat::Rgba8888 || *self == ColorFormat::Srgba8888 {
                8u8
            } else {
                0u8
            }),
    {
        if *self == ColorFormat::Rgba8888 || *self == ColorFormat::Srgba8888 {
            8
        } else {
            0
        }
    }

    /// Whether the format is sRGB.
    pub fn srgb(&self) -> (r: bool)
        ensures
            r == (*self == ColorFormat::Srgba8888),
    {
        *self == ColorFormat::Srgba8888
    }
}

/// Bits of depth of a `drawableDepthFormat` value: none, 16 or 24.
pub fn depth_bits(raw: u64) -> (r: u8)
    requires
        raw <= 2,
    ensures
        r == (if raw == 0 {
            0u8
        } else if raw == 1 {
            16u8
        } else {
            24u8
        }),
{
    if raw == 0 {
        0
    } else if raw == 1 {
        16
    } else {
        24
    }
}

/// Bits of stencil of a `drawableStencilFormat` value: none or 8.
pub fn stencil_bits(raw: u64) -> (r: u8)
    requires
        raw <= 1,
    ensures
        r == (if raw == 0 {
            0u8
        } else {
            8u8
        }),
{
    if raw == 0 {
        0
    } else {
        8
    }
}

/// Samples of a `drawableMultisample` value: none, or 4.
pub fn multisampling(raw: u64) -> (r: Option<u16>)
    requires
        raw <= 1,
    ensures
        raw == 0 ==> r is None,
        raw == 1 ==> r == Some(4u16),
{
    if raw == 0 {
        None
    } else {
        Some(4)
    }
}

/// The pixel format of a view with the given drawable formats: always hardware accelerated
/// and double buffered, never stereo.
pub fn pixel_format(color: ColorFormat, depth_raw: u64, stencil_raw: u64, multisample_raw: u64) -> (r:
    PixelFormat)
    requires
        depth_raw <= 2,
        stencil_raw <= 1,
        multisample_raw <= 1,
    ensures
        r.hardware_accelerated,
        r.double_buffer,
        !r.stereoscopy,
        r.color_bits == (if color == ColorFormat::Rgb565 {
            16u8
        } else {
            8u8
        }),
        r.alpha_bits == (if color == ColorFormat::Rgb565 {
            0u8
        } else {
            8u8
        }),
        r.srgb == (color == ColorFormat::Srgba8888),
        r.depth_bits == (if depth_raw == 0 {
            0u8
        } else if depth_raw == 1 {
            16u8
        } else {
            24u8
        }),
        r.stencil_bits == (if stencil_raw == 0 {
            0u8
        } else {
            8u8
        }),
        r.multisampling == (if multisample_raw == 0 {
            None
        } else {
            Some(4u16)
        }),
{
    PixelFormat {
        hardware_accelerated: true,
        color_bits: color.color_bits(),
        alpha_bits: color.alpha_bits(),
        depth_bits: depth_bits(depth_raw),
        stencil_bits: stencil_bits(stencil_raw),
        stereoscopy: false,
        double_buffer: true,
        multisampling: multisampling(multisample_raw),
        srgb: color.srgb(),
    }
}

/// The message of a version that EAGL does not offer.
#[verifier::external_body]
fn unavailable_version_message(version: u64) -> String {
    format!(
        "Specified OpenGL ES version ({:?}) is not availble on iOS. Only 1, 2, and 3 are valid options",
        version,
    )
}

/// The message of an Api that EAGL does not offer.
#[verifier::external_body]
fn unavailable_api_message(api: GlApi) -> String {
    format!("Specified API ({:?}) is not availble on iOS. Only `Api::OpenGlEs` can be used", api)
}

/// The EAGL rendering Api for the major version `version`: only 1, 2 and 3 exist.
pub fn validate_version(version: u8) -> (r: Result<u64, CreationError>)
    ensures
        r is Ok <==> EAGL_RENDERING_API_OPENGLES1 <= version <= EAGL_RENDERING_API_OPENGLES3,
        r matches Ok(v) ==> v == version,
        r matches Err(e) ==> e is OsError,
{
    let version = version as u64;
    if version >= EAGL_RENDERING_API_OPENGLES1 && version <= EAGL_RENDERING_API_OPENGLES3 {
        Ok(version)
    } else {
        Err(CreationError::OsError(unavailable_version_message(version)))
    }
}

/// The EAGL rendering Api a request asks for: the newest for `Latest`, else the major version
/// of OpenGL ES that was asked for. Only OpenGL ES exists on iOS.
pub fn requested_api_version(request: GlRequest) -> (r: Result<u64, CreationError>)
    ensures
        request is Latest ==> r == Ok::<u64, CreationError>(EAGL_RENDERING_API_OPENGLES3),
        request matches GlRequest::Specific(api, GlVersion(major, _)) ==> {
            &&& (api != GlApi::OpenGlEs ==> r matches Err(CreationError::OsError(_)))
            &&& (api == GlApi::OpenGlEs ==> (r is Ok <==> 1 <= major <= 3))
            &&& (r matches Ok(v) ==> v == major)
        },
        request matches GlRequest::GlThenGles { opengles_version: GlVersion(major, _), .. } ==> {
            &&& (r is Ok <==> 1 <= major <= 3)
            &&& (r matches Ok(v) ==> v == major)
        },
        r matches Err(e) ==> e is OsError,
{
    match request {
        GlRequest::Latest => Ok(EAGL_RENDERING_API_OPENGLES3),
        GlRequest::Specific(api, GlVersion(major, _)) => {
            match api {
                GlApi::OpenGlEs => validate_version(major),
                _ => Err(CreationError::OsError(unavailable_api_message(api))),
            }
        },
        GlRequest::GlThenGles { opengles_version: GlVersion(major, _), .. } => validate_version(
            major,
        ),
    }
}

/// The versions an EAGL context is initialized with, one after the other until one works:
/// from `version` down to 1.
pub fn versions_to_try(version: u64) -> (r: Vec<u64>)
    requires
        version <= EAGL_RENDERING_API_OPENGLES3,
    ensures
        r@.len() == version,
        forall|i: int| 0 <= i < r@.len() ==> r@[i] == version - i,
{
    let mut r: Vec<u64> = Vec::new();
    let mut v = version;
    while v > 0
        invariant
            v <= version,
            r@.len() == version - v,
            forall|i: int| 0 <= i < r@.len() ==> r@[i] == version - i,
        decreases v,
    {
        r.push(v);
        v = v - 1;
    }
    r
}

/// The outcome of trying the versions: the context was created by one of them, or none worked.
pub fn context_outcome(created: bool) -> (r: Result<(), CreationError>)
    ensures
        r is Ok <==> created,
        r matches Err(e) ==> (e matches CreationError::OsError(m) && m@
            == "Failed to create an OpenGL ES context with any version"@),
{
    if created {
        Ok(())
    } else {
        let m = String::from_str("Failed to create an OpenGL ES context with any version");
        Err(CreationError::OsError(m))
    }
}

/// The outcome of `presentRenderbuffer`.
pub fn present_outcome(presented: bool) -> (r: Result<(), ContextError>)
    ensures
        r is Ok <==> presented,
        r matches Err(e) ==> (e matches ContextError::IoError(m) && m@
            == "`EAGLContext presentRenderbuffer` failed"@),
{
    if presented {
        Ok(())
    } else {
        let m = String::from_str("`EAGLContext presentRenderbuffer` failed");
        Err(ContextError::IoError(m))
    }
}

/// The outcome of `setCurrentContext`.
pub fn set_current_outcome(done: bool) -> (r: Result<(), ContextError>)
    ensures
        r is Ok <==> done,
        r matches Err(e) ==> (e matches ContextError::IoError(m) && m@
            == "`EAGLContext setCurrentContext` failed"@),
{
    if done {
        Ok(())
    } else {
        let m = String::from_str("`EAGLContext setCurrentContext` failed");
        Err(ContextError::IoError(m))
    }
}

} // verus!
