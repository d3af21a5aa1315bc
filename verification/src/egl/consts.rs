//! Numeric values of the EGL enumerants the library speaks of, as the EGL registry gives them.
use vstd::prelude::*;

verus! {

pub const FALSE: i32 = 0;
pub const TRUE: i32 = 1;

pub const SUCCESS: u32 = 0x3000;
pub const NOT_INITIALIZED: u32 = 0x3001;
pub const BAD_ACCESS: u32 = 0x3002;
pub const BAD_ALLOC: u32 = 0x3003;
pub const BAD_ATTRIBUTE: u32 = 0x3004;
pub const BAD_CONFIG: u32 = 0x3005;
pub const BAD_CONTEXT: u32 = 0x3006;
pub const BAD_CURRENT_SURFACE: u32 = 0x3007;
pub const BAD_DISPLAY: u32 = 0x3008;
pub const BAD_MATCH: u32 = 0x3009;
pub const BAD_NATIVE_PIXMAP: u32 = 0x300A;
pub const BAD_NATIVE_WINDOW: u32 = 0x300B;
pub const BAD_PARAMETER: u32 = 0x300C;
pub const BAD_SURFACE: u32 = 0x300D;
pub const CONTEXT_LOST: u32 = 0x300E;

pub const ALPHA_SIZE: i32 = 0x3021;
pub const BLUE_SIZE: i32 = 0x3022;
pub const GREEN_SIZE: i32 = 0x3023;
pub const RED_SIZE: i32 = 0x3024;
pub const DEPTH_SIZE: i32 = 0x3025;
pub const STENCIL_SIZE: i32 = 0x3026;
pub const CONFIG_CAVEAT: i32 = 0x3027;
pub const MAX_PBUFFER_HEIGHT: i32 = 0x302A;
pub const MAX_PBUFFER_WIDTH: i32 = 0x302C;
pub const NATIVE_VISUAL_ID: i32 = 0x302E;
pub const SAMPLES: i32 = 0x3031;
pub const SAMPLE_BUFFERS: i32 = 0x3032;
pub const SURFACE_TYPE: i32 = 0x3033;
pub const NONE: i32 = 0x3038;
pub const MIN_SWAP_INTERVAL: i32 = 0x303B;
pub const MAX_SWAP_INTERVAL: i32 = 0x303C;
pub const LUMINANCE_SIZE: i32 = 0x303D;
pub const COLOR_BUFFER_TYPE: i32 = 0x303F;
pub const RENDERABLE_TYPE: i32 = 0x3040;
pub const CONFORMANT: i32 = 0x3042;
pub const SLOW_CONFIG: i32 = 0x3050;
pub const VENDOR: i32 = 0x3053;
pub const EXTENSIONS: i32 = 0x3055;
pub const HEIGHT: i32 = 0x3056;
pub const WIDTH: i32 = 0x3057;
pub const DRAW: i32 = 0x3059;
pub const READ: i32 = 0x305A;
pub const TEXTURE_RGB: i32 = 0x305D;
pub const TEXTURE_RGBA: i32 = 0x305E;
pub const BACK_BUFFER: i32 = 0x3084;
pub const SINGLE_BUFFER: i32 = 0x3085;
pub const RENDER_BUFFER: i32 = 0x3086;
pub const GL_COLORSPACE_SRGB: i32 = 0x3089;
pub const GL_COLORSPACE_LINEAR: i32 = 0x308A;
pub const RGB_BUFFER: i32 = 0x308E;
pub const LUMINANCE_BUFFER: i32 = 0x308F;
pub const CONTEXT_CLIENT_TYPE: i32 = 0x3097;
pub const CONTEXT_CLIENT_VERSION: i32 = 0x3098;
pub const CONTEXT_MAJOR_VERSION: i32 = 0x3098;
pub const GL_COLORSPACE: i32 = 0x309D;
pub const CONTEXT_MINOR_VERSION: i32 = 0x30FB;
pub const CONTEXT_FLAGS_KHR: i32 = 0x30FC;
pub const CONTEXT_OPENGL_PROFILE_MASK: i32 = 0x30FD;
pub const CONTEXT_OPENGL_DEBUG: i32 = 0x31B0;
pub const CONTEXT_OPENGL_ROBUST_ACCESS: i32 = 0x31B2;
pub const CONTEXT_OPENGL_NO_ERROR_KHR: i32 = 0x31B3;
pub const CONTEXT_OPENGL_RESET_NOTIFICATION_STRATEGY: i32 = 0x31BD;
pub const NO_RESET_NOTIFICATION: i32 = 0x31BE;
pub const LOSE_CONTEXT_ON_RESET: i32 = 0x31BF;

pub const PBUFFER_BIT: i32 = 0x0001;
pub const PIXMAP_BIT: i32 = 0x0002;
pub const WINDOW_BIT: i32 = 0x0004;

pub const OPENGL_ES_BIT: i32 = 0x0001;
pub const OPENGL_ES2_BIT: i32 = 0x0004;
pub const OPENGL_BIT: i32 = 0x0008;
pub const OPENGL_ES3_BIT: i32 = 0x0040;

pub const CONTEXT_OPENGL_CORE_PROFILE_BIT: i32 = 0x0001;
pub const CONTEXT_OPENGL_COMPATIBILITY_PROFILE_BIT: i32 = 0x0002;
pub const CONTEXT_OPENGL_ROBUST_ACCESS_BIT_KHR: i32 = 0x0004;

pub const OPENGL_ES_API: u32 = 0x30A0;
pub const OPENGL_API: u32 = 0x30A2;

pub const PLATFORM_DEVICE_EXT: u32 = 0x313F;
pub const PLATFORM_ANDROID_KHR: u32 = 0x3141;
pub const PLATFORM_X11_KHR: u32 = 0x31D5;
pub const PLATFORM_X11_EXT: u32 = 0x31D5;
pub const PLATFORM_X11_SCREEN_KHR: isize = 0x31D6;
pub const PLATFORM_X11_SCREEN_EXT: i32 = 0x31D6;
pub const PLATFORM_GBM_KHR: u32 = 0x31D7;
pub const PLATFORM_GBM_MESA: u32 = 0x31D7;
pub const PLATFORM_WAYLAND_KHR: u32 = 0x31D8;
pub const PLATFORM_WAYLAND_EXT: u32 = 0x31D8;
pub const PLATFORM_XCB_EXT: u32 = 0x31DC;
pub const PLATFORM_XCB_EXT_ATTRIB: i32 = 0x31DC;

pub const COLOR_COMPONENT_TYPE_EXT: i32 = 0x3339;
pub const COLOR_COMPONENT_TYPE_FLOAT_EXT: i32 = 0x333B;
pub const RENDERER_EXT: i32 = 0x335F;
pub const DRM_DEVICE_FILE_EXT: i32 = 0x3233;
pub const DRM_RENDER_NODE_PATH_EXT: i32 = 0x3377;
pub const BUFFER_AGE_EXT: i32 = 0x313D;

pub const SYNC_STATUS: u32 = 0x30F1;
pub const SIGNALED: u32 = 0x30F2;
pub const TIMEOUT_EXPIRED: u32 = 0x30F5;
pub const CONDITION_SATISFIED: u32 = 0x30F6;
pub const SYNC_TYPE: u32 = 0x30F7;
pub const SYNC_FLUSH_COMMANDS_BIT: i32 = 0x0001;
pub const FOREVER: u64 = 0xFFFF_FFFF_FFFF_FFFF;
pub const SYNC_NATIVE_FENCE_ANDROID: u32 = 0x3144;
pub const NO_NATIVE_FENCE_FD_ANDROID: i32 = -1;

} // verus!
