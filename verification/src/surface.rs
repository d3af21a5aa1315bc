//! What a surface is created from and presented with, common to the platform Apis.
use vstd::prelude::*;

use crate::config::NativeWindowHandle;

verus! {

/// The swap interval of a surface.
#[derive(Debug, Clone, Copy, PartialEq, Eq, Structural)]
pub enum SwapInterval {
    /// Present without waiting for the vertical blank.
    DontWait,
    /// Wait for this many vertical blanks; never zero.
    Wait(u32),
}

impl SwapInterval {
    /// A swap interval holds no zero wait.
    pub open spec fn wf(self) -> bool {
        self matches SwapInterval::Wait(n) ==> n > 0
    }
}

/// A rectangle of a surface in pixels, the origin at the bottom left.
#[derive(Debug, Clone, Copy, PartialEq, Eq, Structural)]
pub struct Rect {
    /// Left edge.
    pub x: i32,
    /// Bottom edge.
    pub y: i32,
    /// Width.
    pub width: i32,
    /// Height.
    pub height: i32,
}

/// A native pixmap to render into.
#[derive(Debug, Clone, Copy, PartialEq, Eq, Structural)]
pub enum NativePixmap {
    /// An Xlib pixmap XID.
    XlibPixmap(u64),
    /// An XCB pixmap XID.
    XcbPixmap(u32),
    /// A Windows `HBITMAP`.
    WindowsPixmap(isize),
}

/// The attributes a surface is created with.
#[derive(Debug, Clone, Copy, PartialEq, Eq)]
pub struct SurfaceAttributes {
    /// Whether the surface renders in sRGB, when that was chosen.
    pub srgb: Option<bool>,
    /// Whether the surface is single buffered.
    pub single_buffer: bool,
    /// The width; set for window and pbuffer surfaces.
    pub width: Option<u32>,
    /// The height; set for window and pbuffer surfaces.
    pub height: Option<u32>,
    /// Whether the largest pbuffer possible is wanted.
    pub largest_pbuffer: bool,
    /// The native window, for a window surface.
    pub raw_window_handle: Option<NativeWindowHandle>,
    /// The native pixmap, for a pixmap surface.
    pub native_pixmap: Option<NativePixmap>,
}

/// The kind of surface a surface type stands for.
#[derive(Debug, Clone, Copy, PartialEq, Eq, Structural)]
pub enum SurfaceType {
    /// A window surface.
    Window,
    /// A pixmap surface.
    Pixmap,
    /// A pbuffer surface.
    Pbuffer,
}

} // verus!
