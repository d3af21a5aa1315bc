//! EGL surfaces: the attribute lists of the three kinds of surface, the native window a window
//! surface is made on, the swap calls, and what a surface reports.
use vstd::prelude::*;
use vstd::string::StringSliceAdditionalSpecFns;

use super::consts as egl;
use super::display::EglDisplay;
use crate::config::NativeWindowHandle;
use crate::error::{Error, ErrorKind};
use crate::extensions::ExtensionSet;
use crate::surface::{NativePixmap, SwapInterval};

verus! {

/// The zero terminated attribute list of a pbuffer of `width` by `height` pixels.
pub open spec fn pbuffer_attribute_list(width: u32, height: u32) -> Seq<i32> {
    seq![egl::WIDTH, width as i32, egl::HEIGHT, height as i32, egl::NONE]
}

/// The zero terminated attribute list of `eglCreatePbufferSurface`.
pub fn pbuffer_attributes(width: u32, height: u32) -> (r: Vec<i32>)
    requires
        width > 0,
        height > 0,
    ensures
        r@ == pbuffer_attribute_list(width, height),
{
    let mut attrs: Vec<i32> = Vec::new();
    attrs.push(egl::WIDTH);
    attrs.push(width as i32);
    attrs.push(egl::HEIGHT);
    attrs.push(height as i32);
    attrs.push(egl::NONE);
    attrs
}

/// The colorspace part: only where sRGB was chosen and the config can render sRGB.
pub open spec fn colorspace_part(srgb: Option<bool>, srgb_capable: bool) -> Seq<isize> {
    if srgb is Some && srgb_capable {
        seq![
            egl::GL_COLORSPACE as isize,
            if srgb == Some(true) {
                egl::GL_COLORSPACE_SRGB as isize
            } else {
                egl::GL_COLORSPACE_LINEAR as isize
            },
        ]
    } else {
        seq![]
    }
}

fn push_colorspace(attrs: &mut Vec<isize>, srgb: Option<bool>, srgb_capable: bool)
    ensures
        final(attrs)@ == old(attrs)@ + colorspace_part(srgb, srgb_capable),
{
    match srgb {
        Some(s) => {
            if srgb_capable {
                attrs.push(egl::GL_COLORSPACE as isize);
                attrs.push(
                    if s {
                        egl::GL_COLORSPACE_SRGB as isize
                    } else {
                        egl::GL_COLORSPACE_LINEAR as isize
                    },
                );
            }
        },
        None => {},
    }
    assert(final(attrs)@ =~= old(attrs)@ + colorspace_part(srgb, srgb_capable));
}

/// The zero terminated attribute list of a pixmap surface: its colorspace where one is asked
/// for and the config can take it.
pub open spec fn pixmap_attribute_list(srgb: Option<bool>, srgb_capable: bool) -> Seq<isize> {
    colorspace_part(srgb, srgb_capable) + seq![egl::NONE as isize]
}

/// The zero terminated attribute list of a window surface: the buffer rendered to, then its
/// colorspace where one is asked for and the config can take it.
pub open spec fn window_attribute_list(
    single_buffer: bool,
    srgb: Option<bool>,
    srgb_capable: bool,
) -> Seq<isize> {
    seq![
        egl::RENDER_BUFFER as isize,
        if single_buffer {
            egl::SINGLE_BUFFER as isize
        } else {
            egl::BACK_BUFFER as isize
        },
    ] + colorspace_part(srgb, srgb_capable) + seq![egl::NONE as isize]
}

/// The zero terminated attribute list of a pixmap surface.
pub fn pixmap_attributes(srgb: Option<bool>, srgb_capable: bool) -> (r: Vec<isize>)
    ensures
        r@ == pixmap_attribute_list(srgb, srgb_capable),
{
    let mut attrs: Vec<isize> = Vec::new();
    push_colorspace(&mut attrs, srgb, srgb_capable);
    attrs.push(egl::NONE as isize);
    assert(attrs@ =~= colorspace_part(srgb, srgb_capable) + seq![egl::NONE as isize]);
    attrs
}

/// The zero terminated attribute list of a window surface: the render buffer, then the
/// colorspace.
pub fn window_attributes(single_buffer: bool, srgb: Option<bool>, srgb_capable: bool) -> (r: Vec<
    isize,
>)
    ensures
        r@ == window_attribute_list(single_buffer, srgb, srgb_capable),
{
    let mut attrs: Vec<isize> = Vec::new();
    attrs.push(egl::RENDER_BUFFER as isize);
    attrs.push(
        if single_buffer {
            egl::SINGLE_BUFFER as isize
        } else {
            egl::BACK_BUFFER as isize
        },
    );
    let ghost head = attrs@;
    push_colorspace(&mut attrs, srgb, srgb_capable);
    attrs.push(egl::NONE as isize);
    assert(attrs@ =~= head + colorspace_part(srgb, srgb_capable) + seq![egl::NONE as isize]);
    attrs
}

/// An attribute list of `EGLAttrib`s as the `EGLint`s the EXT and legacy calls take.
pub fn attributes_as_int(attrs: &Vec<isize>) -> (r: Vec<i32>)
    ensures
        r@.len() == attrs@.len(),
        forall|i: int| 0 <= i < attrs@.len() ==> r@[i] == attrs@[i] as i32,
{
    let mut r: Vec<i32> = Vec::new();
    for i in 0..attrs.len()
        invariant
            r@.len() == i,
            forall|j: int| 0 <= j < i ==> r@[j] == attrs@[j] as i32,
    {
        r.push(attrs[i] as i32);
    }
    r
}

/// The pixmap handle a pixmap surface is created on: the platform calls take a pointer to the
/// XID on X11, the legacy call the XID itself; a null handle is a bad native pixmap.
pub fn check_pixmap_handle(handle: usize) -> (r: Result<usize, Error>)
    ensures
        handle != 0 ==> r == Ok::<usize, Error>(handle),
        handle == 0 ==> (r matches Err(e) && e.kind == ErrorKind::BadNativePixmap),
{
    if handle == 0 {
        Err(Error::from_kind(ErrorKind::BadNativePixmap))
    } else {
        Ok(handle)
    }
}

/// The raw value of a native pixmap, as the legacy call takes it.
pub fn native_pixmap_value(pixmap: NativePixmap) -> (r: usize)
    ensures
        pixmap matches NativePixmap::XlibPixmap(x) ==> r == x as usize,
        pixmap matches NativePixmap::XcbPixmap(x) ==> r == x as usize,
        pixmap matches NativePixmap::WindowsPixmap(h) ==> r == h as usize,
{
    match pixmap {
        NativePixmap::XlibPixmap(x) => x as usize,
        NativePixmap::XcbPixmap(x) => x as usize,
        NativePixmap::WindowsPixmap(h) => h as usize,
    }
}

/// The native window of a window surface.
#[derive(Debug, Clone, Copy, PartialEq, Eq, Structural)]
pub enum NativeWindow {
    /// A `wl_egl_window` made for a Wayland surface.
    Wayland(usize),
    /// An Xlib window.
    Xlib(u64),
    /// An XCB window.
    Xcb(u32),
    /// An Android native window.
    Android(usize),
    /// A Win32 window.
    Win32(isize),
    /// A GBM surface.
    Gbm(usize),
}

/// What the native window of a window surface is made from: a Wayland surface still needs its
/// `wl_egl_window`.
#[derive(Debug, Clone, Copy, PartialEq, Eq, Structural)]
pub enum NativeWindowPlan {
    /// The native window, ready.
    Ready(NativeWindow),
    /// Create a `wl_egl_window` of the surface's size on this Wayland surface.
    CreateWaylandWindow(usize),
}

/// What a native window handle becomes: a null handle is a bad native window; AppKit windows
/// and unknown handles are not supported.
pub fn native_window_plan(handle: NativeWindowHandle) -> (r: Result<NativeWindowPlan, Error>)
    ensures
        handle matches NativeWindowHandle::Wayland { surface } ==> (if surface == 0 {
            r matches Err(e) && e.kind == ErrorKind::BadNativeWindow
        } else {
            r == Ok::<NativeWindowPlan, Error>(NativeWindowPlan::CreateWaylandWindow(surface))
        }),
        handle matches NativeWindowHandle::Xlib { window, .. } ==> (if window == 0 {
            r matches Err(e) && e.kind == ErrorKind::BadNativeWindow
        } else {
            r == Ok::<NativeWindowPlan, Error>(NativeWindowPlan::Ready(NativeWindow::Xlib(window)))
        }),
        handle matches NativeWindowHandle::Xcb { window, .. } ==> (if window == 0 {
            r matches Err(e) && e.kind == ErrorKind::BadNativeWindow
        } else {
            r == Ok::<NativeWindowPlan, Error>(NativeWindowPlan::Ready(NativeWindow::Xcb(window)))
        }),
        handle matches NativeWindowHandle::AndroidNdk { a_native_window } ==> (if a_native_window
            == 0 {
            r matches Err(e) && e.kind == ErrorKind::BadNativeWindow
        } else {
            r == Ok::<NativeWindowPlan, Error>(
                NativeWindowPlan::Ready(NativeWindow::Android(a_native_window)),
            )
        }),
        handle matches NativeWindowHandle::Win32 { hwnd, .. } ==> (if hwnd == 0 {
            r matches Err(e) && e.kind == ErrorKind::BadNativeWindow
        } else {
            r == Ok::<NativeWindowPlan, Error>(NativeWindowPlan::Ready(NativeWindow::Win32(hwnd)))
        }),
        handle matches NativeWindowHandle::Gbm { gbm_surface } ==> (if gbm_surface == 0 {
            r matches Err(e) && e.kind == ErrorKind::BadNativeWindow
        } else {
            r == Ok::<NativeWindowPlan, Error>(NativeWindowPlan::Ready(NativeWindow::Gbm(gbm_surface)))
        }),
        (handle is AppKit || handle is Other) ==> (r matches Err(e) && e.kind
            == ErrorKind::NotSupported("provided native window is not supported")),
{
    let bad = Error::from_kind(ErrorKind::BadNativeWindow);
    match handle {
        NativeWindowHandle::Wayland { surface } => {
            if surface == 0 {
                Err(bad)
            } else {
                Ok(NativeWindowPlan::CreateWaylandWindow(surface))
            }
        },
        NativeWindowHandle::Xlib { window, .. } => {
            if window == 0 {
                Err(bad)
            } else {
                Ok(NativeWindowPlan::Ready(NativeWindow::Xlib(window)))
            }
        },
        NativeWindowHandle::Xcb { window, .. } => {
            if window == 0 {
                Err(bad)
            } else {
                Ok(NativeWindowPlan::Ready(NativeWindow::Xcb(window)))
            }
        },
        NativeWindowHandle::AndroidNdk { a_native_window } => {
            if a_native_window == 0 {
                Err(bad)
            } else {
                Ok(NativeWindowPlan::Ready(NativeWindow::Android(a_native_window)))
            }
        },
        NativeWindowHandle::Win32 { hwnd, .. } => {
            if hwnd == 0 {
                Err(bad)
            } else {
                Ok(NativeWindowPlan::Ready(NativeWindow::Win32(hwnd)))
            }
        },
        NativeWindowHandle::Gbm { gbm_surface } => {
            if gbm_surface == 0 {
                Err(bad)
            } else {
                Ok(NativeWindowPlan::Ready(NativeWindow::Gbm(gbm_surface)))
            }
        },
        _ => Err(Error::from_kind(ErrorKind::NotSupported("provided native window is not supported"))),
    }
}

/// The `wl_egl_window` that was created, checked: none means memory ran out.
pub fn wayland_window_created(window: usize) -> (r: Result<NativeWindow, Error>)
    ensures
        window != 0 ==> r == Ok::<NativeWindow, Error>(NativeWindow::Wayland(window)),
        window == 0 ==> (r matches Err(e) && e.kind == ErrorKind::OutOfMemory),
{
    if window == 0 {
        Err(Error::from_kind(ErrorKind::OutOfMemory))
    } else {
        Ok(NativeWindow::Wayland(window))
    }
}

/// The handle value of a native window, as `eglCreateWindowSurface` takes it.
pub fn native_window_value(window: NativeWindow) -> (r: usize)
    ensures
        window matches NativeWindow::Wayland(p) ==> r == p,
        window matches NativeWindow::Xlib(x) ==> r == x as usize,
        window matches NativeWindow::Xcb(x) ==> r == x as usize,
        window matches NativeWindow::Android(p) ==> r == p,
        window matches NativeWindow::Win32(h) ==> r == h as usize,
        window matches NativeWindow::Gbm(p) ==> r == p,
{
    match window {
        NativeWindow::Wayland(p) => p,
        NativeWindow::Xlib(x) => x as usize,
        NativeWindow::Xcb(x) => x as usize,
        NativeWindow::Android(p) => p,
        NativeWindow::Win32(h) => h as usize,
        NativeWindow::Gbm(p) => p,
    }
}

/// Which creation call a display takes, by how it was obtained.
#[derive(Debug, Clone, Copy, PartialEq, Eq, Structural)]
pub enum CreationCall {
    /// `eglCreatePlatform*Surface` with `EGLAttrib`s.
    Platform,
    /// `eglCreatePlatform*SurfaceEXT` with `EGLint`s.
    PlatformExt,
    /// `eglCreate*Surface` with `EGLint`s.
    Legacy,
}

/// The creation call of a display.
pub fn creation_call(display: EglDisplay) -> (r: CreationCall)
    ensures
        display is Khr ==> r == CreationCall::Platform,
        display is Ext ==> r == CreationCall::PlatformExt,
        display is Legacy ==> r == CreationCall::Legacy,
{
    match display {
        EglDisplay::Khr(_) => CreationCall::Platform,
        EglDisplay::Ext(_) => CreationCall::PlatformExt,
        EglDisplay::Legacy(_) => CreationCall::Legacy,
    }
}

/// How buffers are swapped with damage.
#[derive(Debug, Clone, Copy, PartialEq, Eq, Structural)]
pub enum DamageSwap {
    /// `eglSwapBuffersWithDamageKHR`.
    Khr,
    /// `eglSwapBuffersWithDamageEXT`.
    Ext,
    /// `eglSwapBuffers`, the damage dropped.
    Plain,
}

/// The swap of a display: the KHR extension first, then the EXT one, else a plain swap.
pub fn damage_swap(exts: &ExtensionSet) -> (r: DamageSwap)
    ensures
        exts@.contains("EGL_KHR_swap_buffers_with_damage".spec_bytes()) ==> r == DamageSwap::Khr,
        !exts@.contains("EGL_KHR_swap_buffers_with_damage".spec_bytes()) && exts@.contains(
            "EGL_EXT_swap_buffers_with_damage".spec_bytes(),
        ) ==> r == DamageSwap::Ext,
        !exts@.contains("EGL_KHR_swap_buffers_with_damage".spec_bytes()) && !exts@.contains(
            "EGL_EXT_swap_buffers_with_damage".spec_bytes(),
        ) ==> r == DamageSwap::Plain,
{
    if exts.contains("EGL_KHR_swap_buffers_with_damage") {
        DamageSwap::Khr
    } else if exts.contains("EGL_EXT_swap_buffers_with_damage") {
        DamageSwap::Ext
    } else {
        DamageSwap::Plain
    }
}

/// The age of the back buffer: queried only with `EGL_EXT_buffer_age`, else zero.
pub fn buffer_age(exts: &ExtensionSet, query: Option<i32>) -> (r: u32)
    requires
        exts@.contains("EGL_EXT_buffer_age".spec_bytes()) ==> query is Some,
    ensures
        exts@.contains("EGL_EXT_buffer_age".spec_bytes()) ==> r == query->0 as u32,
        !exts@.contains("EGL_EXT_buffer_age".spec_bytes()) ==> r == 0,
{
    if exts.contains("EGL_EXT_buffer_age") {
        match query {
            Some(v) => v as u32,
            None => 0,
        }
    } else {
        0
    }
}

/// Whether a surface renders into a single buffer, by its `EGL_RENDER_BUFFER`.
pub fn is_single_buffered(render_buffer: i32) -> (r: bool)
    ensures
        r == (render_buffer == egl::SINGLE_BUFFER),
{
    render_buffer == egl::SINGLE_BUFFER
}

/// The interval `eglSwapInterval` gets.
pub fn swap_interval_value(interval: SwapInterval) -> (r: i32)
    ensures
        interval is DontWait ==> r == 0,
        interval matches SwapInterval::Wait(n) ==> r == n as i32,
{
    match interval {
        SwapInterval::DontWait => 0,
        SwapInterval::Wait(n) => n as i32,
    }
}

/// Whether a surface is current: as the draw and as the read surface.
pub fn is_current(surface: usize, current_draw: usize, current_read: usize) -> (r: bool)
    ensures
        r == (current_draw == surface && current_read == surface),
{
    current_draw == surface && current_read == surface
}

} // verus!
