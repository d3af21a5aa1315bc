//! Numeric values of the GLX and Xlib enumerants the library speaks of, as the GLX registry and
//! the Xlib headers give them.
use vstd::prelude::*;

verus! {

pub const X_BAD_VALUE: u8 = 2;
pub const X_BAD_WINDOW: u8 = 3;
pub const X_BAD_PIXMAP: u8 = 4;
pub const X_BAD_MATCH: u8 = 8;
pub const X_BAD_ACCESS: u8 = 10;
pub const X_BAD_ALLOC: u8 = 11;

pub const PROTO_BAD_CONTEXT: u32 = 0;
pub const PROTO_BAD_CONTEXT_STATE: u32 = 1;
pub const PROTO_BAD_DRAWABLE: u32 = 2;
pub const PROTO_BAD_PIXMAP: u32 = 3;
pub const PROTO_BAD_CONTEXT_TAG: u32 = 4;
pub const PROTO_BAD_CURRENT_WINDOW: u32 = 5;
pub const PROTO_BAD_RENDER_REQUEST: u32 = 6;
pub const PROTO_BAD_LARGE_REQUEST: u32 = 7;
pub const PROTO_UNSUPPORTED_PRIVATE_REQUEST: u32 = 8;
pub const PROTO_BAD_FBCONFIG: u32 = 9;
pub const PROTO_BAD_PBUFFER: u32 = 10;
pub const PROTO_BAD_CURRENT_DRAWABLE: u32 = 11;
pub const PROTO_BAD_WINDOW: u32 = 12;

pub const BAD_CONTEXT: i32 = 5;

pub const DOUBLEBUFFER: i32 = 5;
pub const STEREO: i32 = 6;
pub const RED_SIZE: i32 = 8;
pub const GREEN_SIZE: i32 = 9;
pub const BLUE_SIZE: i32 = 10;
pub const ALPHA_SIZE: i32 = 11;
pub const DEPTH_SIZE: i32 = 12;
pub const STENCIL_SIZE: i32 = 13;
pub const CONFIG_CAVEAT: i32 = 0x20;
pub const X_VISUAL_TYPE: i32 = 0x22;
pub const NONE: i32 = 0x8000;
pub const SLOW_CONFIG: i32 = 0x8001;
pub const TRUE_COLOR: i32 = 0x8002;
pub const GRAY_SCALE: i32 = 0x8006;
pub const VISUAL_ID: i32 = 0x800B;
pub const DRAWABLE_TYPE: i32 = 0x8010;
pub const RENDER_TYPE: i32 = 0x8011;
pub const RGBA_TYPE: i32 = 0x8014;
pub const MAX_PBUFFER_WIDTH: i32 = 0x8016;
pub const MAX_PBUFFER_HEIGHT: i32 = 0x8017;
pub const LARGEST_PBUFFER: i32 = 0x801C;
pub const WIDTH: i32 = 0x801D;
pub const HEIGHT: i32 = 0x801E;
pub const PBUFFER_HEIGHT: i32 = 0x8040;
pub const PBUFFER_WIDTH: i32 = 0x8041;
pub const SAMPLE_BUFFERS: i32 = 100000;
pub const SAMPLES: i32 = 100001;

pub const WINDOW_BIT: i32 = 0x1;
pub const PIXMAP_BIT: i32 = 0x2;
pub const PBUFFER_BIT: i32 = 0x4;
pub const RGBA_BIT: i32 = 0x1;
pub const RGBA_FLOAT_BIT_ARB: i32 = 0x4;
pub const RGBA_FLOAT_TYPE_ARB: i32 = 0x20B9;
pub const FRAMEBUFFER_SRGB_CAPABLE_ARB: i32 = 0x20B2;
pub const BACK_BUFFER_AGE_EXT: i32 = 0x20F4;

pub const CONTEXT_MAJOR_VERSION_ARB: i32 = 0x2091;
pub const CONTEXT_MINOR_VERSION_ARB: i32 = 0x2092;
pub const CONTEXT_FLAGS_ARB: i32 = 0x2094;
pub const CONTEXT_RELEASE_BEHAVIOR_ARB: i32 = 0x2097;
pub const CONTEXT_RELEASE_BEHAVIOR_NONE_ARB: i32 = 0;
pub const CONTEXT_OPENGL_NO_ERROR_ARB: i32 = 0x31B3;
pub const CONTEXT_PROFILE_MASK_ARB: i32 = 0x9126;
pub const CONTEXT_CORE_PROFILE_BIT_ARB: i32 = 0x1;
pub const CONTEXT_COMPATIBILITY_PROFILE_BIT_ARB: i32 = 0x2;
pub const CONTEXT_ES2_PROFILE_BIT_EXT: i32 = 0x4;
pub const CONTEXT_DEBUG_BIT_ARB: i32 = 0x1;
pub const CONTEXT_ROBUST_ACCESS_BIT_ARB: i32 = 0x4;
pub const CONTEXT_RESET_NOTIFICATION_STRATEGY_ARB: i32 = 0x8256;
pub const LOSE_CONTEXT_ON_RESET_ARB: i32 = 0x8252;
pub const NO_RESET_NOTIFICATION_ARB: i32 = 0x8261;

} // verus!
