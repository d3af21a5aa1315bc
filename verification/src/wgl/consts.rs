//! Numeric values of the WGL and GDI enumerants the library speaks of, as the WGL registry and
//! the Windows headers give them.
use vstd::prelude::*;

verus! {

pub const PFD_DOUBLEBUFFER: u32 = 0x0000_0001;
pub const PFD_STEREO: u32 = 0x0000_0002;
pub const PFD_DRAW_TO_WINDOW: u32 = 0x0000_0004;
pub const PFD_DRAW_TO_BITMAP: u32 = 0x0000_0008;
pub const PFD_SUPPORT_OPENGL: u32 = 0x0000_0020;
pub const PFD_GENERIC_FORMAT: u32 = 0x0000_0040;
pub const PFD_GENERIC_ACCELERATED: u32 = 0x0000_1000;
pub const PFD_STEREO_DONTCARE: u32 = 0x8000_0000;
pub const PFD_TYPE_RGBA: u8 = 0;
pub const PFD_MAIN_PLANE: u8 = 0;

pub const DRAW_TO_WINDOW_ARB: i32 = 0x2001;
pub const DRAW_TO_BITMAP_ARB: i32 = 0x2002;
pub const ACCELERATION_ARB: i32 = 0x2003;
pub const TRANSPARENT_ARB: i32 = 0x200A;
pub const SUPPORT_OPENGL_ARB: i32 = 0x2010;
pub const DOUBLE_BUFFER_ARB: i32 = 0x2011;
pub const STEREO_ARB: i32 = 0x2012;
pub const PIXEL_TYPE_ARB: i32 = 0x2013;
pub const RED_BITS_ARB: i32 = 0x2015;
pub const GREEN_BITS_ARB: i32 = 0x2017;
pub const BLUE_BITS_ARB: i32 = 0x2019;
pub const ALPHA_BITS_ARB: i32 = 0x201B;
pub const DEPTH_BITS_ARB: i32 = 0x2022;
pub const STENCIL_BITS_ARB: i32 = 0x2023;
pub const NO_ACCELERATION_ARB: i32 = 0x2025;
pub const FULL_ACCELERATION_ARB: i32 = 0x2027;
pub const TYPE_RGBA_ARB: i32 = 0x202B;
pub const SAMPLE_BUFFERS_ARB: i32 = 0x2041;
pub const SAMPLES_ARB: i32 = 0x2042;
pub const FRAMEBUFFER_SRGB_CAPABLE_ARB: i32 = 0x20A9;
pub const FRAMEBUFFER_SRGB_CAPABLE_EXT: i32 = 0x20A9;
pub const TYPE_RGBA_FLOAT_ARB: i32 = 0x21A0;
pub const PBUFFER_LARGEST_ARB: i32 = 0x2033;
pub const PBUFFER_WIDTH_ARB: i32 = 0x2034;
pub const PBUFFER_HEIGHT_ARB: i32 = 0x2035;

} // verus!
