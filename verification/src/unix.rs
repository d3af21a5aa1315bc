//! Unix-like platforms of the legacy Api: context handles, the backing Api preference, the
//! platform attributes, and the check of an X11 visual against what a config asks of it.
use vstd::prelude::*;

verus! {

/// Context handles available on Unix-like platforms.
#[derive(Debug, Clone, Copy, PartialEq, Eq, Structural)]
pub enum RawHandle {
    /// Context handle for a GLX context.
    Glx(usize),
    /// Context handle for an EGL context.
    Egl(usize),
}

/// The kinds of context on Unix-like platforms.
#[derive(Debug, Clone, Copy, PartialEq, Eq, Structural)]
pub enum ContextType {
    /// A context of a Wayland display.
    Wayland,
}

/// The Api a surface is backed by, in order of preference.
#[derive(Debug, Clone, Copy, PartialEq, Eq, Structural)]
pub enum BackingApi {
    /// GLX, falling back to EGL.
    GlxThenEgl,
    /// EGL, falling back to GLX.
    EglThenGlx,
    /// EGL only.
    Egl,
    /// GLX only.
    Glx,
}

impl Default for BackingApi {
    fn default() -> (r: Self)
        ensures
            r == BackingApi::GlxThenEgl,
    {
        BackingApi::GlxThenEgl
    }
}

/// Surface attributes specific to Unix-like platforms.
#[derive(Debug, Clone, Copy, PartialEq, Eq)]
pub struct SurfacePlatformAttributes {
    /// X11 only: the visual XID the config must use, when one is imposed.
    pub x11_visual_xid: Option<u64>,
    /// Ignored by surfaceless contexts, which are always EGL.
    pub backing_api: BackingApi,
}

impl Default for SurfacePlatformAttributes {
    fn default() -> (r: Self)
        ensures
            r.x11_visual_xid is None,
            r.backing_api == BackingApi::GlxThenEgl,
    {
        SurfacePlatformAttributes { x11_visual_xid: None, backing_api: BackingApi::default() }
    }
}

/// Context attributes specific to Unix-like platforms.
#[derive(Debug, Clone, Copy, PartialEq, Eq)]
pub struct ContextPlatformAttributes {
    /// GLX only: whether the context will have transparency support.
    pub glx_transparency: Option<bool>,
}

impl Default for ContextPlatformAttributes {
    fn default() -> (r: Self)
        ensures
            r.glx_transparency is None,
    {
        ContextPlatformAttributes { glx_transparency: None }
    }
}

/// What an X11 visual lacks for a config.
#[derive(Debug, Clone, Copy, PartialEq, Eq, Structural)]
pub enum Lacks {
    /// The visual has no alpha channel for transparency.
    Transparency,
    /// The visual is not the one imposed.
    XID,
}

/// Examine a visual against the wishes: the imposed visual XID is checked first, then
/// transparency. `alpha_mask` is the alpha mask of the render format XRender finds for the
/// visual, `None` where it finds none; it is only looked at when transparency is wanted.
pub fn examine_visual_info(
    visual_id: u64,
    want_transparency: bool,
    want_xid: Option<u64>,
    alpha_mask: Option<u64>,
) -> (r: Result<(), Lacks>)
    ensures
        (want_xid matches Some(x) && x != visual_id) ==> r == Err::<(), Lacks>(Lacks::XID),
        !(want_xid matches Some(x) && x != visual_id) && want_transparency && (alpha_mask is None
            || alpha_mask == Some(0u64)) ==> r == Err::<(), Lacks>(Lacks::Transparency),
        r is Ok <==> !(want_xid matches Some(x) && x != visual_id) && !(want_transparency && (
        alpha_mask is None || alpha_mask == Some(0u64))),
{
    match want_xid {
        Some(x) => {
            if visual_id != x {
                return Err(Lacks::XID);
            }
        },
        None => {},
    }
    if want_transparency {
        match alpha_mask {
            None => {
                return Err(Lacks::Transparency);
            },
            Some(mask) => {
                if mask == 0 {
                    return Err(Lacks::Transparency);
                }
            },
        }
    }
    Ok(())
}

} // verus!
