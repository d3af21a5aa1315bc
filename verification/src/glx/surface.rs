//! GLX drawables: what a window, pixmap or pbuffer is created from, what a drawable reports,
//! and how a swap interval is applied through the swap control extensions.
use vstd::prelude::*;
use vstd::string::StringSliceAdditionalSpecFns;

use super::consts as glx;
use crate::config::NativeWindowHandle;
use crate::error::{Error, ErrorKind};
use crate::extensions::ExtensionSet;
use crate::surface::{NativePixmap, SwapInterval};

verus! {

/// The pixmap XID of a pixmap surface and its (empty, zero terminated) attribute list: only Xlib
/// pixmaps are supported, and not the zero XID.
pub fn pixmap_request(pixmap: NativePixmap) -> (r: Result<(u64, Vec<i32>), Error>)
    ensures
        pixmap matches NativePixmap::XlibPixmap(x) ==> (if x == 0 {
            r matches Err(e) && e.kind == ErrorKind::BadNativePixmap
        } else {
            r matches Ok((xid, attrs)) && xid == x && attrs@ == seq![0i32]
        }),
        !(pixmap is XlibPixmap) ==> (r matches Err(e) && e.kind == ErrorKind::NotSupported(
            "provided native pixmap is not supported.",
        )),
{
    match pixmap {
        NativePixmap::XlibPixmap(xid) => {
            if xid == 0 {
                return Err(Error::from_kind(ErrorKind::BadNativePixmap));
            }
            let mut attrs: Vec<i32> = Vec::new();
            attrs.push(0);
            assert(attrs@ =~= seq![0i32]);
            Ok((xid, attrs))
        },
        _ => Err(
            Error::from_kind(ErrorKind::NotSupported("provided native pixmap is not supported.")),
        ),
    }
}

/// The zero terminated attribute list of a pbuffer of `width` by `height` pixels, asking for
/// the largest one available when it can't be had at that size where `largest_pbuffer`.
pub open spec fn pbuffer_attribute_list(width: u32, height: u32, largest_pbuffer: bool) -> Seq<i32> {
    seq![
        glx::PBUFFER_WIDTH,
        width as i32,
        glx::PBUFFER_HEIGHT,
        height as i32,
        glx::LARGEST_PBUFFER,
        if largest_pbuffer {
            1i32
        } else {
            0i32
        },
        0i32,
    ]
}

/// The zero terminated attribute list of `glXCreatePbuffer`.
pub fn pbuffer_attributes(width: u32, height: u32, largest_pbuffer: bool) -> (r: Vec<i32>)
    requires
        width > 0,
        height > 0,
    ensures
        r@ == pbuffer_attribute_list(width, height, largest_pbuffer),
{
    let mut attrs: Vec<i32> = Vec::new();
    attrs.push(glx::PBUFFER_WIDTH);
    attrs.push(width as i32);
    attrs.push(glx::PBUFFER_HEIGHT);
    attrs.push(height as i32);
    attrs.push(glx::LARGEST_PBUFFER);
    attrs.push(if largest_pbuffer { 1 } else { 0 });
    attrs.push(0);
    assert(attrs@ =~= pbuffer_attribute_list(width, height, largest_pbuffer));
    attrs
}

/// The window XID of a window surface and its (empty, zero terminated) attribute list: only
/// Xlib windows are supported, and not the zero XID.
pub fn window_request(handle: NativeWindowHandle) -> (r: Result<(u64, Vec<i32>), Error>)
    ensures
        handle matches NativeWindowHandle::Xlib { window, .. } ==> (if window == 0 {
            r matches Err(e) && e.kind == ErrorKind::BadNativeWindow
        } else {
            r matches Ok((xid, attrs)) && xid == window && attrs@ == seq![0i32]
        }),
        !(handle is Xlib) ==> (r matches Err(e) && e.kind == ErrorKind::NotSupported(
            "provided native window is not supported",
        )),
{
    match handle {
        NativeWindowHandle::Xlib { window, .. } => {
            if window == 0 {
                return Err(Error::from_kind(ErrorKind::BadNativeWindow));
            }
            let mut attrs: Vec<i32> = Vec::new();
            attrs.push(0);
            assert(attrs@ =~= seq![0i32]);
            Ok((window, attrs))
        },
        _ => Err(Error::from_kind(ErrorKind::NotSupported("provided native window is not supported"))),
    }
}

/// The age of the back buffer: queried only with `GLX_EXT_buffer_age`, else zero.
pub fn buffer_age(exts: &ExtensionSet, query: Option<u32>) -> (r: u32)
    requires
        exts@.contains("GLX_EXT_buffer_age".spec_bytes()) ==> query is Some,
    ensures
        exts@.contains("GLX_EXT_buffer_age".spec_bytes()) ==> r == query->0,
        !exts@.contains("GLX_EXT_buffer_age".spec_bytes()) ==> r == 0,
{
    if exts.contains("GLX_EXT_buffer_age") {
        match query {
            Some(v) => v,
            None => 0,
        }
    } else {
        0
    }
}

/// A swap control extension.
#[derive(Debug, Clone, Copy, PartialEq, Eq, Structural)]
pub enum SwapMethod {
    /// `glXSwapIntervalEXT`, per drawable.
    Ext,
    /// `glXSwapIntervalMESA`.
    Mesa,
    /// `glXSwapIntervalSGI`.
    Sgi,
}

/// The swap control extensions of a display, in the order they are tried: EXT first, since it
/// is per window, then MESA, then SGI.
pub open spec fn spec_swap_methods(exts: Set<Seq<u8>>) -> Seq<SwapMethod> {
    (if exts.contains("GLX_EXT_swap_control".spec_bytes()) {
        seq![SwapMethod::Ext]
    } else {
        seq![]
    }) + (if exts.contains("GLX_MESA_swap_control".spec_bytes()) {
        seq![SwapMethod::Mesa]
    } else {
        seq![]
    }) + (if exts.contains("GLX_SGI_swap_control".spec_bytes()) {
        seq![SwapMethod::Sgi]
    } else {
        seq![]
    })
}

/// The interval to apply and the swap control extensions to try, in order. Swap control needs
/// the extension functions and the swap control feature.
pub fn swap_interval_plan(swap_control: bool, exts: &ExtensionSet, interval: SwapInterval) -> (r:
    Result<(u32, Vec<SwapMethod>), Error>)
    ensures
        !swap_control ==> (r matches Err(e) && e.kind == ErrorKind::NotSupported(
            "swap contol extrensions are not supported",
        )),
        swap_control ==> (r matches Ok((n, methods)) && n == (match interval {
            SwapInterval::DontWait => 0u32,
            SwapInterval::Wait(n) => n,
        }) && methods@ == spec_swap_methods(exts@)),
{
    if !swap_control {
        return Err(
            Error::from_kind(ErrorKind::NotSupported("swap contol extrensions are not supported")),
        );
    }
    let n = match interval {
        SwapInterval::DontWait => 0,
        SwapInterval::Wait(n) => n,
    };
    let mut methods: Vec<SwapMethod> = Vec::new();
    if exts.contains("GLX_EXT_swap_control") {
        methods.push(SwapMethod::Ext);
    }
    let ghost a = methods@;
    if exts.contains("GLX_MESA_swap_control") {
        methods.push(SwapMethod::Mesa);
    }
    let ghost b = methods@;
    if exts.contains("GLX_SGI_swap_control") {
        methods.push(SwapMethod::Sgi);
    }
    assert(methods@ =~= spec_swap_methods(exts@));
    Ok((n, methods))
}

/// Whether `glXSwapIntervalMESA` or `glXSwapIntervalSGI` applied the interval: they return
/// `GLX_BAD_CONTEXT` when they did not.
pub fn vendor_swap_applied(ret: i32) -> (r: bool)
    ensures
        r == (ret != glx::BAD_CONTEXT),
{
    ret != glx::BAD_CONTEXT
}

/// What trying a swap control extension gave.
#[derive(Debug, PartialEq, Eq)]
pub enum SwapOutcome {
    /// The interval was applied.
    Applied,
    /// The extension did not apply it; the next one is tried.
    NotApplied,
    /// The call raised an X error.
    Failed(Error),
}

/// The result of the tries, in order: the first that applied the interval or failed decides;
/// when none did, the context is taken for bad.
pub open spec fn spec_swap_result(outcomes: Seq<SwapOutcome>) -> Result<(), Error>
    decreases outcomes.len(),
{
    if outcomes.len() == 0 {
        Err(Error { raw_code: None, raw_os_message: None, kind: ErrorKind::BadContext })
    } else {
        match outcomes[0] {
            SwapOutcome::Applied => Ok(()),
            SwapOutcome::Failed(e) => Err(e),
            SwapOutcome::NotApplied => spec_swap_result(outcomes.subrange(1, outcomes.len() as int)),
        }
    }
}

/// The result of the tries, in order.
pub fn swap_interval_result(outcomes: Vec<SwapOutcome>) -> (r: Result<(), Error>)
    ensures
        r == spec_swap_result(outcomes@),
{
    let mut rest = outcomes;
    while rest.len() > 0
        invariant
            spec_swap_result(rest@) == spec_swap_result(outcomes@),
        decreases rest.len(),
    {
        let ghost before = rest@;
        let o = rest.remove(0);
        assert(rest@ =~= before.subrange(1, before.len() as int));
        match o {
            SwapOutcome::Applied => {
                return Ok(());
            },
            SwapOutcome::Failed(e) => {
                return Err(e);
            },
            SwapOutcome::NotApplied => {},
        }
    }
    Err(Error::from_kind(ErrorKind::BadContext))
}

} // verus!
