//! Types of the legacy context creation Api: requests, pixel format requirements and the
//! attributes of a chosen config.
use vstd::prelude::*;

use crate::context::{ReleaseBehavior, Robustness};

verus! {

/// A version of OpenGL or OpenGL ES: major and minor number.
#[derive(Debug, Clone, Copy, PartialEq, Eq, Structural)]
pub struct GlVersion(pub u8, pub u8);

/// The rendering Api of a legacy request.
#[derive(Debug, Clone, Copy, PartialEq, Eq, Structural)]
pub enum GlApi {
    /// The classical OpenGL.
    OpenGl,
    /// OpenGL embedded system.
    OpenGlEs,
    /// OpenGL for the web.
    WebGl,
}

/// Describes the OpenGL Api and version that are being requested when a context is created.
#[derive(Debug, Clone, Copy, PartialEq, Eq, Structural)]
pub enum GlRequest {
    /// Request the latest version of the "best" Api of this platform.
    Latest,
    /// Request a specific version of a specific Api.
    Specific(GlApi, GlVersion),
    /// OpenGL at `opengl_version` when it is available, else OpenGL ES at `opengles_version`.
    GlThenGles {
        /// The version to use for OpenGL.
        opengl_version: GlVersion,
        /// The version to use for OpenGL ES.
        opengles_version: GlVersion,
    },
}

/// The requirements a legacy config is chosen by.
#[derive(Debug, Clone, Copy, PartialEq, Eq)]
pub struct ConfigBuilder {
    /// The Api and version requested.
    pub version: GlRequest,
    /// The config must support window surfaces.
    pub window_surface_support: bool,
    /// The config must support pbuffers.
    pub pbuffer_support: bool,
    /// Hardware acceleration, when it matters.
    pub hardware_accelerated: Option<bool>,
    /// Bits of the three color components together, when they matter.
    pub color_bits: Option<u8>,
    /// Bits of alpha, when they matter.
    pub alpha_bits: Option<u8>,
    /// Bits of depth, when they matter.
    pub depth_bits: Option<u8>,
    /// Bits of stencil, when they matter.
    pub stencil_bits: Option<u8>,
    /// Double buffering, when it matters.
    pub double_buffer: Option<bool>,
    /// Samples of multisampling, when it is requested.
    pub multisampling: Option<u16>,
    /// Whether stereo pairs are requested.
    pub stereoscopy: bool,
    /// The X11 visual the config must use, when one is imposed.
    pub x11_visual_xid: Option<u64>,
    /// The release behavior.
    pub release_behavior: ReleaseBehavior,
    /// Whether vsync must be possible, when it matters.
    pub vsync: Option<bool>,
}

/// The attributes of the config a legacy request was given.
#[derive(Debug, Clone, Copy, PartialEq, Eq)]
pub struct ConfigAttribs {
    /// The Api of the config.
    pub api: GlApi,
    /// The version bound, if one was requested.
    pub version: Option<GlVersion>,
    /// Whether a swap interval of one is possible.
    pub vsync: bool,
    /// Window surfaces are supported.
    pub window_surface_support: bool,
    /// Pbuffers are supported.
    pub pbuffer_support: bool,
    /// The config is hardware accelerated.
    pub hardware_accelerated: bool,
    /// Bits of the three color components together.
    pub color_bits: u8,
    /// Bits of alpha.
    pub alpha_bits: u8,
    /// Bits of depth.
    pub depth_bits: u8,
    /// Bits of stencil.
    pub stencil_bits: u8,
    /// Stereo pairs.
    pub stereoscopy: bool,
    /// Double buffering.
    pub double_buffer: bool,
    /// Samples of multisampling, if any.
    pub multisampling: Option<u16>,
    /// sRGB.
    pub srgb: bool,
}

/// The pixel format of a legacy context.
#[derive(Debug, Clone, Copy, PartialEq, Eq)]
pub struct PixelFormat {
    /// Hardware acceleration.
    pub hardware_accelerated: bool,
    /// Bits of the three color components together.
    pub color_bits: u8,
    /// Bits of alpha.
    pub alpha_bits: u8,
    /// Bits of depth.
    pub depth_bits: u8,
    /// Bits of stencil.
    pub stencil_bits: u8,
    /// Stereo pairs.
    pub stereoscopy: bool,
    /// Double buffering.
    pub double_buffer: bool,
    /// Samples of multisampling, if any.
    pub multisampling: Option<u16>,
    /// sRGB.
    pub srgb: bool,
}

/// A rectangle of a surface, in pixels.
#[derive(Debug, Clone, Copy, PartialEq, Eq)]
pub struct Rect {
    /// Left edge.
    pub x: u32,
    /// Bottom edge.
    pub y: u32,
    /// Width.
    pub width: u32,
    /// Height.
    pub height: u32,
}

/// Context attributes of a legacy request.
#[derive(Debug, Clone, Copy, PartialEq, Eq)]
pub struct GlAttributes {
    /// Whether a context to share with was passed.
    pub sharing: bool,
    /// The Api and version requested.
    pub version: GlRequest,
    /// The profile requested, if any.
    pub profile: Option<crate::context::GlProfile>,
    /// Debug context.
    pub debug: bool,
    /// Robustness.
    pub robustness: Robustness,
    /// Vsync.
    pub vsync: bool,
}

} // verus!
