//! The legacy EGL backend: choosing the native display and the config, binding the Api,
//! creating the context and presenting, as decisions around the EGL calls.
use vstd::prelude::*;

use super::config::pair;
use super::consts as egl;
use crate::context::{ReleaseBehavior, Robustness};
use crate::error::{ContextError, CreationError};
use crate::extensions::ExtensionSet;
use vstd::string::StringSliceAdditionalSpecFns;
use crate::legacy::{ConfigAttribs, ConfigBuilder, GlApi, GlRequest, GlVersion, Rect};

verus! {

/// Whether EGL version `v` (major, minor) is at least `(major, minor)`.
pub open spec fn egl_at_least(v: (i32, i32), major: i32, minor: i32) -> bool {
    v.0 > major || (v.0 == major && v.1 >= minor)
}

/// Whether EGL version `v` is at least `(major, minor)`.
pub fn egl_version_at_least(v: (i32, i32), major: i32, minor: i32) -> (r: bool)
    ensures
        r == egl_at_least(v, major, minor),
{
    v.0 > major || (v.0 == major && v.1 >= minor)
}

fn push_pair(attrs: &mut Vec<i32>, name: i32, value: i32)
    ensures
        final(attrs)@ == old(attrs)@ + pair(name, value),
{
    super::config::push_pair(attrs, name, value)
}

/// Whether the Api and version of a request lie where the legacy config choice is defined:
/// OpenGL ES only at a known major version 1, 2 or 3, no WebGl.
pub open spec fn api_request_defined(api: GlApi, version: Option<GlVersion>) -> bool {
    match api {
        GlApi::OpenGlEs => version is Some && 1 <= version.unwrap().0 <= 3,
        GlApi::OpenGl => true,
        GlApi::WebGl => false,
    }
}

/// Whether the display's EGL version serves the Api and version: OpenGL and OpenGL ES 2 or 3
/// need EGL 1.3.
pub open spec fn api_served(v: (i32, i32), api: GlApi, version: Option<GlVersion>) -> bool {
    match api {
        GlApi::OpenGlEs => version.unwrap().0 == 1 || egl_at_least(v, 1, 3),
        _ => egl_at_least(v, 1, 3),
    }
}

/// The renderable and conformant attributes for the Api and version.
pub open spec fn api_part(v: (i32, i32), api: GlApi, version: Option<GlVersion>) -> Seq<i32> {
    match api {
        GlApi::OpenGlEs => {
            let bit = if version.unwrap().0 == 3 {
                egl::OPENGL_ES3_BIT
            } else if version.unwrap().0 == 2 {
                egl::OPENGL_ES2_BIT
            } else {
                egl::OPENGL_ES_BIT
            };
            if egl_at_least(v, 1, 3) {
                pair(egl::RENDERABLE_TYPE, bit) + pair(egl::CONFORMANT, bit)
            } else {
                Seq::empty()
            }
        },
        _ => pair(egl::RENDERABLE_TYPE, egl::OPENGL_BIT) + pair(egl::CONFORMANT, egl::OPENGL_BIT),
    }
}

/// The first part of the descriptor: buffer type, surface type, Api.
pub open spec fn descriptor_head(
    v: (i32, i32),
    api: GlApi,
    version: Option<GlVersion>,
    cb: ConfigBuilder,
) -> Seq<i32> {
    (if egl_at_least(v, 1, 2) {
        pair(egl::COLOR_BUFFER_TYPE, egl::RGB_BUFFER)
    } else {
        Seq::empty()
    }) + pair(
        egl::SURFACE_TYPE,
        (if cb.window_surface_support { egl::WINDOW_BIT } else { 0 }) | (if cb.pbuffer_support {
            egl::PBUFFER_BIT
        } else {
            0
        }),
    ) + api_part(v, api, version)
}

/// The color attributes for `color` bits over three components: the red gets a third, the
/// green one more when there is a remainder, the blue one more when the remainder is two.
pub open spec fn color_part(color: u8) -> Seq<i32> {
    pair(egl::RED_SIZE, (color / 3) as i32) + pair(
        egl::GREEN_SIZE,
        (color / 3 + if color % 3 != 0 { 1int } else { 0int }) as i32,
    ) + pair(egl::BLUE_SIZE, (color / 3 + if color % 3 == 2 { 1int } else { 0int }) as i32)
}

/// The second part of the descriptor: caveat, sizes, samples and visual.
pub open spec fn descriptor_tail(cb: ConfigBuilder) -> Seq<i32> {
    descriptor_tail_color(cb) + descriptor_tail_sizes(cb) + descriptor_tail_samples(cb)
}

/// Whether a legacy descriptor can be built: the Api is served, no double buffering and no
/// stereoscopy are demanded.
pub open spec fn descriptor_possible(
    v: (i32, i32),
    api: GlApi,
    version: Option<GlVersion>,
    cb: ConfigBuilder,
) -> bool {
    api_served(v, api, version) && cb.double_buffer != Some(true) && !cb.stereoscopy
}

fn descriptor_head_attributes(
    v: (i32, i32),
    api: GlApi,
    version: Option<GlVersion>,
    cb: &ConfigBuilder,
) -> (r: Option<Vec<i32>>)
    requires
        api_request_defined(api, version),
    ensures
        r is Some <==> api_served(v, api, version),
        r matches Some(a) ==> a@ == descriptor_head(v, api, version, *cb),
{
    let mut out: Vec<i32> = Vec::new();
    if egl_version_at_least(v, 1, 2) {
        push_pair(&mut out, egl::COLOR_BUFFER_TYPE, egl::RGB_BUFFER);
    }
    let w = if cb.window_surface_support { egl::WINDOW_BIT } else { 0 };
    let p = if cb.pbuffer_support { egl::PBUFFER_BIT } else { 0 };
    push_pair(&mut out, egl::SURFACE_TYPE, w | p);
    let ghost s1 = out@;
    let at_13 = egl_version_at_least(v, 1, 3);
    match api {
        GlApi::OpenGlEs => {
            let major = match version {
                Some(GlVersion(major, _)) => major,
                None => 0,
            };
            let bit = if major == 3 {
                egl::OPENGL_ES3_BIT
            } else if major == 2 {
                egl::OPENGL_ES2_BIT
            } else {
                egl::OPENGL_ES_BIT
            };
            if major != 1 && !at_13 {
                return None;
            }
            if at_13 {
                push_pair(&mut out, egl::RENDERABLE_TYPE, bit);
                push_pair(&mut out, egl::CONFORMANT, bit);
            }
        },
        _ => {
            if !at_13 {
                return None;
            }
            push_pair(&mut out, egl::RENDERABLE_TYPE, egl::OPENGL_BIT);
            push_pair(&mut out, egl::CONFORMANT, egl::OPENGL_BIT);
        },
    }
    assert(out@ =~= descriptor_head(v, api, version, *cb));
    Some(out)
}

/// The caveat and color part of the descriptor tail.
pub open spec fn descriptor_tail_color(cb: ConfigBuilder) -> Seq<i32> {
    (match cb.hardware_accelerated {
        Some(h) => pair(egl::CONFIG_CAVEAT, if h { egl::NONE } else { egl::SLOW_CONFIG }),
        None => Seq::empty(),
    }) + (match cb.color_bits {
        Some(c) => color_part(c),
        None => Seq::empty(),
    })
}

/// The alpha, depth and stencil part of the descriptor tail.
pub open spec fn descriptor_tail_sizes(cb: ConfigBuilder) -> Seq<i32> {
    (match cb.alpha_bits {
        Some(a) => pair(egl::ALPHA_SIZE, a as i32),
        None => Seq::empty(),
    }) + (match cb.depth_bits {
        Some(d) => pair(egl::DEPTH_SIZE, d as i32),
        None => Seq::empty(),
    }) + (match cb.stencil_bits {
        Some(s) => pair(egl::STENCIL_SIZE, s as i32),
        None => Seq::empty(),
    })
}

/// The samples and visual part of the descriptor tail.
pub open spec fn descriptor_tail_samples(cb: ConfigBuilder) -> Seq<i32> {
    (match cb.multisampling {
        Some(m) => pair(egl::SAMPLES, m as i32),
        None => Seq::empty(),
    }) + (match cb.x11_visual_xid {
        Some(x) => pair(egl::NATIVE_VISUAL_ID, x as i32),
        None => Seq::empty(),
    })
}

fn push_tail_color(out: &mut Vec<i32>, cb: &ConfigBuilder)
    ensures
        final(out)@ == old(out)@ + descriptor_tail_color(*cb),
{
    let ghost s0 = out@;
    if let Some(hardware_accelerated) = cb.hardware_accelerated {
        push_pair(out, egl::CONFIG_CAVEAT, if hardware_accelerated { egl::NONE } else { egl::SLOW_CONFIG });
    }
    let ghost s1 = out@;
    if let Some(color) = cb.color_bits {
        push_pair(out, egl::RED_SIZE, (color / 3) as i32);
        let g: u8 = color / 3 + if color % 3 != 0 { 1 } else { 0 };
        push_pair(out, egl::GREEN_SIZE, g as i32);
        let b: u8 = color / 3 + if color % 3 == 2 { 1 } else { 0 };
        push_pair(out, egl::BLUE_SIZE, b as i32);
        assert(out@ =~= s1 + color_part(color));
    }
    assert(out@ =~= s0 + descriptor_tail_color(*cb));
}

fn push_tail_sizes(out: &mut Vec<i32>, cb: &ConfigBuilder)
    ensures
        final(out)@ == old(out)@ + descriptor_tail_sizes(*cb),
{
    let ghost s0 = out@;
    if let Some(alpha) = cb.alpha_bits {
        push_pair(out, egl::ALPHA_SIZE, alpha as i32);
    }
    let ghost s1 = out@;
    if let Some(depth) = cb.depth_bits {
        push_pair(out, egl::DEPTH_SIZE, depth as i32);
    }
    let ghost s2 = out@;
    if let Some(stencil) = cb.stencil_bits {
        push_pair(out, egl::STENCIL_SIZE, stencil as i32);
    }
    assert(out@ =~= s0 + descriptor_tail_sizes(*cb));
}

fn push_tail_samples(out: &mut Vec<i32>, cb: &ConfigBuilder)
    ensures
        final(out)@ == old(out)@ + descriptor_tail_samples(*cb),
{
    let ghost s0 = out@;
    if let Some(multisampling) = cb.multisampling {
        push_pair(out, egl::SAMPLES, multisampling as i32);
    }
    let ghost s1 = out@;
    if let Some(xid) = cb.x11_visual_xid {
        push_pair(out, egl::NATIVE_VISUAL_ID, xid as i32);
    }
    assert(out@ =~= s0 + descriptor_tail_samples(*cb));
}

fn push_descriptor_tail(out: &mut Vec<i32>, cb: &ConfigBuilder)
    ensures
        final(out)@ == old(out)@ + descriptor_tail(*cb),
{
    let ghost s0 = out@;
    push_tail_color(out, cb);
    push_tail_sizes(out, cb);
    push_tail_samples(out, cb);
    assert(out@ =~= s0 + descriptor_tail(*cb));
}

/// The attribute list `eglChooseConfig` gets for a legacy request bound to `api` at `version`,
/// on a display of EGL version `egl_version`.
///
/// A request the display can't serve (OpenGL, OpenGL ES 2 or 3 below EGL 1.3), double
/// buffering demanded, or stereoscopy demanded give `NoAvailableConfig`. Requests outside the
/// defined ones (WebGl, OpenGL ES without a major version of 1 to 3) are left out, and so is
/// no flush on release for a request that none of those errors refuses first.
pub fn choose_config_descriptor(
    egl_version: (i32, i32),
    api: GlApi,
    version: Option<GlVersion>,
    cb: &ConfigBuilder,
) -> (r: Result<Vec<i32>, CreationError>)
    requires
        api_request_defined(api, version),
        cb.release_behavior == ReleaseBehavior::Flush || !descriptor_possible(
            egl_version,
            api,
            version,
            *cb,
        ),
    ensures
        r is Ok <==> descriptor_possible(egl_version, api, version, *cb),
        r matches Err(e) ==> e == CreationError::NoAvailableConfig,
        r matches Ok(a) ==> a@ == descriptor_head(egl_version, api, version, *cb) + descriptor_tail(
            *cb,
        ) + seq![egl::NONE],
{
    let mut out = match descriptor_head_attributes(egl_version, api, version, cb) {
        Some(o) => o,
        None => return Err(CreationError::NoAvailableConfig),
    };
    if cb.double_buffer == Some(true) || cb.stereoscopy {
        return Err(CreationError::NoAvailableConfig);
    }
    push_descriptor_tail(&mut out, cb);
    out.push(egl::NONE);
    Ok(out)
}

/// The swap interval limits a config reports, each `None` when reading it failed.
#[derive(Debug, Clone, Copy, PartialEq, Eq)]
pub struct SwapIntervalRange {
    /// The raw `EGLConfig`, by its address.
    pub config: usize,
    /// `EGL_MIN_SWAP_INTERVAL`, if it could be read.
    pub min_swap_interval: Option<i32>,
    /// `EGL_MAX_SWAP_INTERVAL`, if it could be read.
    pub max_swap_interval: Option<i32>,
}

/// Keep the configs that allow the desired swap interval, in order. A failed read of the minimum
/// of a config, or of the maximum of a config whose minimum allows the interval, fails the
/// whole choice.
pub open spec fn spec_vsync_filter(cs: Seq<SwapIntervalRange>, desired: i32) -> Option<Seq<usize>>
    decreases cs.len(),
{
    if cs.len() == 0 {
        Some(Seq::empty())
    } else {
        let c = cs[0];
        let rest = spec_vsync_filter(cs.drop_first(), desired);
        match c.min_swap_interval {
            None => None,
            Some(min) => if desired < min {
                rest
            } else {
                match c.max_swap_interval {
                    None => None,
                    Some(max) => if desired > max {
                        rest
                    } else {
                        match rest {
                            Some(r) => Some(seq![c.config] + r),
                            None => None,
                        }
                    },
                }
            },
        }
    }
}

proof fn lemma_vsync_failure_spreads(cs: Seq<SwapIntervalRange>, desired: i32, k: int)
    requires
        0 <= k <= cs.len(),
        spec_vsync_filter(cs.skip(k), desired) is None,
    ensures
        spec_vsync_filter(cs, desired) is None,
    decreases k,
{
    if k > 0 {
        assert(cs.skip(k - 1).drop_first() =~= cs.skip(k));
        lemma_vsync_failure_spreads(cs, desired, k - 1);
    } else {
        assert(cs.skip(0) =~= cs);
    }
}

/// Whether a config's swap interval limits allow the interval `desired`.
pub open spec fn allows_interval(c: SwapIntervalRange, desired: i32) -> bool {
    &&& c.min_swap_interval matches Some(min) && min <= desired
    &&& c.max_swap_interval matches Some(max) && desired <= max
}

/// Every config the vsync filter keeps is one of the configs given whose limits allow the
/// interval.
pub proof fn lemma_vsync_filter_keeps_allowing(cs: Seq<SwapIntervalRange>, desired: i32)
    ensures
        spec_vsync_filter(cs, desired) matches Some(kept) ==> forall|i: int|
            0 <= i < kept.len() ==> exists|j: int|
                0 <= j < cs.len() && cs[j].config == #[trigger] kept[i] && allows_interval(
                    #[trigger] cs[j],
                    desired,
                ),
    decreases cs.len(),
{
    if cs.len() > 0 {
        let rest = cs.drop_first();
        lemma_vsync_filter_keeps_allowing(rest, desired);
        if let Some(kept) = spec_vsync_filter(cs, desired) {
            let c = cs[0];
            let r = spec_vsync_filter(rest, desired);
            assert(r is Some);
            let rk = r->0;
            assert forall|i: int| 0 <= i < kept.len() implies exists|j: int|
                0 <= j < cs.len() && cs[j].config == #[trigger] kept[i] && allows_interval(
                    #[trigger] cs[j],
                    desired,
                ) by {
                if kept == rk {
                    let j = choose|j: int|
                        0 <= j < rest.len() && rest[j].config == rk[i] && allows_interval(
                            #[trigger] rest[j],
                            desired,
                        );
                    assert(cs[j + 1] == rest[j]);
                } else {
                    assert(kept == seq![c.config] + rk);
                    if i == 0 {
                        assert(cs[0].config == kept[0]);
                        assert(allows_interval(cs[0], desired));
                    } else {
                        assert(kept[i] == rk[i - 1]);
                        let j = choose|j: int|
                            0 <= j < rest.len() && rest[j].config == rk[i - 1] && allows_interval(
                                #[trigger] rest[j],
                                desired,
                            );
                        assert(cs[j + 1] == rest[j]);
                    }
                }
            }
        }
    }
}

/// The configs that allow the swap interval vsync asks for (one with vsync, zero without).
pub fn filter_by_vsync(configs: &Vec<SwapIntervalRange>, vsync: bool) -> (r: Result<
    Vec<usize>,
    CreationError,
>)
    ensures
        r is Ok <==> spec_vsync_filter(configs@, if vsync { 1 } else { 0 }) is Some,
        r matches Ok(v) ==> spec_vsync_filter(configs@, if vsync { 1 } else { 0 }) == Some(v@),
        r matches Err(e) ==> (e matches CreationError::OsError(m) && m@
            == "eglGetConfigAttrib failed"@),
{
    let desired: i32 = if vsync { 1 } else { 0 };
    let n = configs.len();
    let mut i = n;
    let mut kept: Vec<usize> = Vec::new();
    let ghost mut acc: Seq<usize> = Seq::empty();
    while i > 0
        invariant
            i <= n,
            n == configs@.len(),
            desired == (if vsync { 1i32 } else { 0i32 }),
            spec_vsync_filter(configs@.skip(i as int), desired) is Some,
            spec_vsync_filter(configs@.skip(i as int), desired) == Some(kept@.reverse()),
        decreases i,
    {
        i = i - 1;
        let c = configs[i];
        assert(configs@.skip(i as int).drop_first() =~= configs@.skip(i + 1));
        assert(configs@.skip(i as int)[0] == c);
        match c.min_swap_interval {
            None => {
                proof {
                    assert(spec_vsync_filter(configs@.skip(i as int), desired) is None);
                    lemma_vsync_failure_spreads(configs@, desired, i as int);
                }
                let m = String::from_str("eglGetConfigAttrib failed");
                return Err(CreationError::OsError(m));
            },
            Some(min) => {
                if desired < min {
                } else {
                    match c.max_swap_interval {
                        None => {
                            proof {
                                assert(spec_vsync_filter(configs@.skip(i as int), desired) is None);
                                lemma_vsync_failure_spreads(configs@, desired, i as int);
                            }
                            let m = String::from_str("eglGetConfigAttrib failed");
                            return Err(CreationError::OsError(m));
                        },
                        Some(max) => {
                            if desired > max {
                            } else {
                                let ghost before = kept@;
                                kept.push(c.config);
                                assert(kept@.reverse() =~= seq![c.config] + before.reverse());
                            }
                        },
                    }
                }
            },
        }
    }
    assert(configs@.skip(0) =~= configs@);
    let mut out: Vec<usize> = Vec::new();
    let m = kept.len();
    let mut j = m;
    while j > 0
        invariant
            j <= m,
            m == kept@.len(),
            out@ == kept@.reverse().take((m - j) as int),
        decreases j,
    {
        j = j - 1;
        let ghost before = out@;
        out.push(kept[j]);
        assert(out@ =~= kept@.reverse().take((m - j) as int));
    }
    assert(out@ =~= kept@.reverse());
    Ok(out)
}

/// The configs a legacy choice hands to the config selector: all the configs `eglChooseConfig`
/// gave when no vsync is asked for, else those the vsync filter keeps, in order (`None` when a
/// read of a swap interval limit failed).
pub open spec fn spec_selector_input(cs: Seq<SwapIntervalRange>, vsync: Option<bool>) -> Option<
    Seq<usize>,
> {
    match vsync {
        None => Some(cs.map_values(|c: SwapIntervalRange| c.config)),
        Some(v) => spec_vsync_filter(cs, if v { 1 } else { 0 }),
    }
}

/// The configs to hand to the config selector, from the configs `eglChooseConfig` gave (with
/// their swap interval limits where vsync is asked for): a failed read is an OS error, and no
/// config left is `NoAvailableConfig`, in which case the selector is not called.
pub fn configs_for_selector(configs: &Vec<SwapIntervalRange>, vsync: Option<bool>) -> (r: Result<
    Vec<usize>,
    CreationError,
>)
    ensures
        match spec_selector_input(configs@, vsync) {
            None => r matches Err(e) && (e matches CreationError::OsError(m) && m@
                == "eglGetConfigAttrib failed"@),
            Some(kept) => if kept.len() == 0 {
                r == Err::<Vec<usize>, CreationError>(CreationError::NoAvailableConfig)
            } else {
                r matches Ok(v) && v@ == kept
            },
        },
{
    let kept = match vsync {
        Some(v) => filter_by_vsync(configs, v)?,
        None => {
            let mut all: Vec<usize> = Vec::new();
            let n = configs.len();
            for i in 0..n
                invariant
                    n == configs@.len(),
                    all@ == configs@.take(i as int).map_values(|c: SwapIntervalRange| c.config),
            {
                all.push(configs[i].config);
                assert(configs@.take(i + 1) =~= configs@.take(i as int).push(configs@[i as int]));
                assert(all@ =~= configs@.take(i + 1).map_values(|c: SwapIntervalRange| c.config));
            }
            assert(configs@.take(n as int) =~= configs@);
            all
        },
    };
    if kept.len() == 0 {
        return Err(CreationError::NoAvailableConfig);
    }
    Ok(kept)
}

/// The config a legacy choice ends with, from the selector's answer: the config it picked, or
/// `NoAvailableConfig` when it picked none.
pub fn selected_config(answer: Result<usize, ()>) -> (r: Result<usize, CreationError>)
    ensures
        answer matches Ok(c) ==> r == Ok::<usize, CreationError>(c),
        answer is Err ==> r == Err::<usize, CreationError>(CreationError::NoAvailableConfig),
{
    match answer {
        Ok(c) => Ok(c),
        Err(_) => Err(CreationError::NoAvailableConfig),
    }
}

/// The attribute values of the chosen config.
#[derive(Debug, Clone, Copy, PartialEq, Eq)]
pub struct ChosenConfigValues {
    /// `EGL_MIN_SWAP_INTERVAL`.
    pub min_swap_interval: i32,
    /// `EGL_MAX_SWAP_INTERVAL`.
    pub max_swap_interval: i32,
    /// `EGL_CONFIG_CAVEAT`.
    pub config_caveat: i32,
    /// `EGL_RED_SIZE`.
    pub red_size: i32,
    /// `EGL_GREEN_SIZE`.
    pub green_size: i32,
    /// `EGL_BLUE_SIZE`.
    pub blue_size: i32,
    /// `EGL_ALPHA_SIZE`.
    pub alpha_size: i32,
    /// `EGL_DEPTH_SIZE`.
    pub depth_size: i32,
    /// `EGL_STENCIL_SIZE`.
    pub stencil_size: i32,
    /// `EGL_SAMPLES`.
    pub samples: i32,
}

/// The attributes of the chosen config, for a request of `api` at `version`.
pub open spec fn spec_config_attribs(
    api: GlApi,
    version: Option<GlVersion>,
    cb: ConfigBuilder,
    c: ChosenConfigValues,
) -> ConfigAttribs {
    ConfigAttribs {
        api,
        version,
        vsync: c.min_swap_interval <= 1 && c.max_swap_interval >= 1,
        window_surface_support: cb.window_surface_support,
        pbuffer_support: cb.pbuffer_support,
        hardware_accelerated: c.config_caveat != egl::SLOW_CONFIG,
        color_bits: (c.red_size as u8 + c.blue_size as u8 + c.green_size as u8) as u8,
        alpha_bits: c.alpha_size as u8,
        depth_bits: c.depth_size as u8,
        stencil_bits: c.stencil_size as u8,
        stereoscopy: false,
        double_buffer: true,
        multisampling: if c.samples == 0 || c.samples == 1 {
            None
        } else {
            Some(c.samples as u16)
        },
        srgb: false,
    }
}

/// The attributes of the chosen config. The minimum swap interval is never negative, and the
/// three color sizes, each read as a byte, fit a byte together.
pub fn config_attribs(
    api: GlApi,
    version: Option<GlVersion>,
    cb: &ConfigBuilder,
    c: &ChosenConfigValues,
) -> (r: ConfigAttribs)
    requires
        c.min_swap_interval >= 0,
        c.red_size as u8 + c.blue_size as u8 + c.green_size as u8 <= 255,
    ensures
        r == spec_config_attribs(api, version, *cb, *c),
{
    let color_bits: u8 = c.red_size as u8 + c.blue_size as u8 + c.green_size as u8;
    ConfigAttribs {
        api,
        version,
        vsync: c.min_swap_interval <= 1 && c.max_swap_interval >= 1,
        window_surface_support: cb.window_surface_support,
        pbuffer_support: cb.pbuffer_support,
        hardware_accelerated: c.config_caveat != egl::SLOW_CONFIG,
        color_bits,
        alpha_bits: c.alpha_size as u8,
        depth_bits: c.depth_size as u8,
        stencil_bits: c.stencil_size as u8,
        stereoscopy: false,
        double_buffer: true,
        multisampling: if c.samples == 0 || c.samples == 1 {
            None
        } else {
            Some(c.samples as u16)
        },
        srgb: false,
    }
}

/// An Api binding to try: the `eglBindAPI` enum, and the version and Api it yields when the
/// binding succeeds.
#[derive(Debug, Clone, Copy, PartialEq, Eq)]
pub struct BindCandidate {
    /// The Api enum for `eglBindAPI`.
    pub bind_api: u32,
    /// The version the request yields with this Api.
    pub version: Option<GlVersion>,
    /// The Api.
    pub api: GlApi,
}

/// How a legacy request binds its Api.
#[derive(Debug, Clone, PartialEq, Eq)]
pub enum BindPlan {
    /// No binding is needed: the version and Api are settled.
    NoBind(Option<GlVersion>, GlApi),
    /// Try these bindings in order; the first that succeeds settles the version and Api.
    Try(Vec<BindCandidate>),
    /// The request can't be served.
    Refuse,
}

/// The bindings a request tries, in order.
pub open spec fn spec_bind_candidates(request: GlRequest, v: (i32, i32)) -> Option<Seq<BindCandidate>> {
    match request {
        GlRequest::Latest => if egl_at_least(v, 1, 2) {
            Some(
                (if egl_at_least(v, 1, 4) {
                    seq![BindCandidate { bind_api: egl::OPENGL_API, version: None, api: GlApi::OpenGl }]
                } else {
                    Seq::empty()
                }) + seq![BindCandidate { bind_api: egl::OPENGL_ES_API, version: None, api: GlApi::OpenGlEs }],
            )
        } else {
            None
        },
        GlRequest::Specific(GlApi::OpenGlEs, ver) => if egl_at_least(v, 1, 2) {
            Some(seq![BindCandidate { bind_api: egl::OPENGL_ES_API, version: Some(ver), api: GlApi::OpenGlEs }])
        } else {
            None
        },
        GlRequest::Specific(GlApi::OpenGl, ver) => if egl_at_least(v, 1, 4) {
            Some(seq![BindCandidate { bind_api: egl::OPENGL_API, version: Some(ver), api: GlApi::OpenGl }])
        } else {
            None
        },
        GlRequest::Specific(GlApi::WebGl, _) => None,
        GlRequest::GlThenGles { opengl_version, opengles_version } => if egl_at_least(v, 1, 2) {
            Some(
                (if egl_at_least(v, 1, 4) {
                    seq![BindCandidate { bind_api: egl::OPENGL_API, version: Some(opengl_version), api: GlApi::OpenGl }]
                } else {
                    Seq::empty()
                }) + seq![BindCandidate { bind_api: egl::OPENGL_ES_API, version: Some(opengles_version), api: GlApi::OpenGlEs }],
            )
        } else {
            None
        },
    }
}

/// The plan of a request: below EGL 1.2 the latest and the "OpenGL then ES" requests take
/// OpenGL ES without binding; specific OpenGL ES requests need EGL 1.2, specific OpenGL
/// requests EGL 1.4; WebGl is refused.
pub open spec fn spec_bind_plan_kind(request: GlRequest, v: (i32, i32)) -> int {
    match request {
        GlRequest::Latest => if egl_at_least(v, 1, 2) { 1 } else { 0 },
        GlRequest::GlThenGles { .. } => if egl_at_least(v, 1, 2) { 1 } else { 0 },
        GlRequest::Specific(GlApi::OpenGlEs, _) => if egl_at_least(v, 1, 2) { 1 } else { 2 },
        GlRequest::Specific(GlApi::OpenGl, _) => if egl_at_least(v, 1, 4) { 1 } else { 2 },
        GlRequest::Specific(GlApi::WebGl, _) => 2,
    }
}

/// The bindings to try for a legacy request on a display of EGL version `egl_version`.
pub fn bind_plan(request: GlRequest, egl_version: (i32, i32)) -> (r: BindPlan)
    ensures
        spec_bind_plan_kind(request, egl_version) == 0 ==> r == BindPlan::NoBind(
            match request {
                GlRequest::GlThenGles { opengles_version, .. } => Some(opengles_version),
                _ => None,
            },
            GlApi::OpenGlEs,
        ),
        spec_bind_plan_kind(request, egl_version) == 1 ==> (r matches BindPlan::Try(c) && Some(c@)
            == spec_bind_candidates(request, egl_version)),
        spec_bind_plan_kind(request, egl_version) == 2 ==> r == BindPlan::Refuse,
{
    let at_12 = egl_version_at_least(egl_version, 1, 2);
    let at_14 = egl_version_at_least(egl_version, 1, 4);
    match request {
        GlRequest::Latest => {
            if at_12 {
                let mut c: Vec<BindCandidate> = Vec::new();
                if at_14 {
                    c.push(BindCandidate { bind_api: egl::OPENGL_API, version: None, api: GlApi::OpenGl });
                }
                let ghost c0 = c@;
                c.push(BindCandidate { bind_api: egl::OPENGL_ES_API, version: None, api: GlApi::OpenGlEs });
                assert(c@ =~= c0 + seq![BindCandidate { bind_api: egl::OPENGL_ES_API, version: None, api: GlApi::OpenGlEs }]);
                assert(c0 =~= (if egl_at_least(egl_version, 1, 4) {
                    seq![BindCandidate { bind_api: egl::OPENGL_API, version: None, api: GlApi::OpenGl }]
                } else {
                    Seq::empty()
                }));
                BindPlan::Try(c)
            } else {
                BindPlan::NoBind(None, GlApi::OpenGlEs)
            }
        },
        GlRequest::Specific(GlApi::OpenGlEs, ver) => {
            if at_12 {
                let mut c: Vec<BindCandidate> = Vec::new();
                c.push(BindCandidate { bind_api: egl::OPENGL_ES_API, version: Some(ver), api: GlApi::OpenGlEs });
                assert(c@ =~= seq![BindCandidate { bind_api: egl::OPENGL_ES_API, version: Some(ver), api: GlApi::OpenGlEs }]);
                BindPlan::Try(c)
            } else {
                BindPlan::Refuse
            }
        },
        GlRequest::Specific(GlApi::OpenGl, ver) => {
            if at_14 {
                let mut c: Vec<BindCandidate> = Vec::new();
                c.push(BindCandidate { bind_api: egl::OPENGL_API, version: Some(ver), api: GlApi::OpenGl });
                assert(c@ =~= seq![BindCandidate { bind_api: egl::OPENGL_API, version: Some(ver), api: GlApi::OpenGl }]);
                BindPlan::Try(c)
            } else {
                BindPlan::Refuse
            }
        },
        GlRequest::Specific(GlApi::WebGl, _) => BindPlan::Refuse,
        GlRequest::GlThenGles { opengl_version, opengles_version } => {
            if at_12 {
                let mut c: Vec<BindCandidate> = Vec::new();
                if at_14 {
                    c.push(BindCandidate { bind_api: egl::OPENGL_API, version: Some(opengl_version), api: GlApi::OpenGl });
                }
                let ghost c0 = c@;
                c.push(BindCandidate { bind_api: egl::OPENGL_ES_API, version: Some(opengles_version), api: GlApi::OpenGlEs });
                assert(c@ =~= c0 + seq![BindCandidate { bind_api: egl::OPENGL_ES_API, version: Some(opengles_version), api: GlApi::OpenGlEs }]);
                assert(c0 =~= (if egl_at_least(egl_version, 1, 4) {
                    seq![BindCandidate { bind_api: egl::OPENGL_API, version: Some(opengl_version), api: GlApi::OpenGl }]
                } else {
                    Seq::empty()
                }));
                BindPlan::Try(c)
            } else {
                BindPlan::NoBind(Some(opengles_version), GlApi::OpenGlEs)
            }
        },
    }
}

/// The first candidate whose binding succeeded, given the outcome of each attempt in order.
pub open spec fn spec_first_bound(cs: Seq<BindCandidate>, bound: Seq<bool>) -> Option<BindCandidate>
    decreases cs.len(),
{
    if cs.len() == 0 || bound.len() == 0 {
        None
    } else if bound[0] {
        Some(cs[0])
    } else {
        spec_first_bound(cs.drop_first(), bound.drop_first())
    }
}

/// The version and Api a plan settles on, given the outcome of each `eglBindAPI` attempt, in
/// order (attempts after the first success are not read). When no attempt succeeded, or the
/// plan refuses, the OpenGl version is not supported.
pub fn bind_outcome(plan: &BindPlan, bound: &Vec<bool>) -> (r: Result<
    (Option<GlVersion>, GlApi),
    CreationError,
>)
    ensures
        match *plan {
            BindPlan::NoBind(v, a) => r == Ok::<(Option<GlVersion>, GlApi), CreationError>((v, a)),
            BindPlan::Try(cs) => match spec_first_bound(cs@, bound@) {
                Some(c) => r == Ok::<(Option<GlVersion>, GlApi), CreationError>((c.version, c.api)),
                None => r == Err::<(Option<GlVersion>, GlApi), CreationError>(
                    CreationError::OpenGlVersionNotSupported,
                ),
            },
            BindPlan::Refuse => r == Err::<(Option<GlVersion>, GlApi), CreationError>(
                CreationError::OpenGlVersionNotSupported,
            ),
        },
{
    match plan {
        BindPlan::NoBind(v, a) => Ok((*v, *a)),
        BindPlan::Refuse => Err(CreationError::OpenGlVersionNotSupported),
        BindPlan::Try(cs) => {
            let n = if cs.len() < bound.len() { cs.len() } else { bound.len() };
            assert(cs@.skip(0) =~= cs@);
            assert(bound@.skip(0) =~= bound@);
            for i in 0..n
                invariant
                    *plan == BindPlan::Try(*cs),
                    n <= cs@.len(),
                    n <= bound@.len(),
                    n == cs@.len() || n == bound@.len(),
                    spec_first_bound(cs@, bound@) == spec_first_bound(cs@.skip(i as int), bound@.skip(i as int)),
            {
                assert(cs@.skip(i as int).drop_first() =~= cs@.skip(i + 1));
                assert(bound@.skip(i as int).drop_first() =~= bound@.skip(i + 1));
                if bound[i] {
                    return Ok((cs[i].version, cs[i].api));
                }
            }
            Err(CreationError::OpenGlVersionNotSupported)
        },
    }
}

/// The type of display passed as the native display; `None` means `EGL_DEFAULT_DISPLAY`.
#[derive(Debug, Clone, Copy, PartialEq, Eq)]
pub enum NativeDisplay {
    /// An X11 display.
    X11(Option<usize>),
    /// A GBM device.
    Gbm(Option<usize>),
    /// A Wayland display.
    Wayland(Option<usize>),
    /// The Android display, always the default one.
    Android,
    /// An EGL device.
    Device(usize),
    /// No specific display type.
    Other(Option<usize>),
}

/// How the display is obtained.
#[derive(Debug, Clone, Copy, PartialEq, Eq)]
pub enum DisplayCall {
    /// `eglGetPlatformDisplay` with the platform and native display.
    Platform { platform: u32, display: usize },
    /// `eglGetPlatformDisplayEXT` with the platform and native display.
    PlatformExt { platform: u32, display: usize },
    /// `eglGetDisplay` with the native display.
    Legacy { display: usize },
}

/// The display a request names, the default one (zero) when it names none.
pub open spec fn or_default(d: Option<usize>) -> usize {
    match d {
        Some(d) => d,
        None => 0,
    }
}

/// How the display is obtained, by the first rule that applies: a platform extension reported
/// without a display, with its entry point loaded, selects the platform call of that
/// extension (KHR before EXT/MESA); otherwise `eglGetDisplay` takes the display given, or the
/// default one.
pub open spec fn spec_display_call(
    nd: NativeDisplay,
    exts: Set<Seq<u8>>,
    platform_loaded: bool,
    platform_ext_loaded: bool,
) -> DisplayCall {
    match nd {
        NativeDisplay::X11(d) => if exts.contains("EGL_KHR_platform_x11".spec_bytes()) && platform_loaded {
            DisplayCall::Platform { platform: egl::PLATFORM_X11_KHR, display: or_default(d) }
        } else if exts.contains("EGL_EXT_platform_x11".spec_bytes()) && platform_ext_loaded {
            DisplayCall::PlatformExt { platform: egl::PLATFORM_X11_EXT, display: or_default(d) }
        } else {
            DisplayCall::Legacy { display: or_default(d) }
        },
        NativeDisplay::Gbm(d) => if exts.contains("EGL_KHR_platform_gbm".spec_bytes()) && platform_loaded {
            DisplayCall::Platform { platform: egl::PLATFORM_GBM_KHR, display: or_default(d) }
        } else if exts.contains("EGL_MESA_platform_gbm".spec_bytes()) && platform_ext_loaded {
            DisplayCall::PlatformExt { platform: egl::PLATFORM_GBM_KHR, display: or_default(d) }
        } else {
            DisplayCall::Legacy { display: or_default(d) }
        },
        NativeDisplay::Wayland(d) => if exts.contains("EGL_KHR_platform_wayland".spec_bytes())
            && platform_loaded {
            DisplayCall::Platform { platform: egl::PLATFORM_WAYLAND_KHR, display: or_default(d) }
        } else if exts.contains("EGL_EXT_platform_wayland".spec_bytes()) && platform_ext_loaded {
            DisplayCall::PlatformExt { platform: egl::PLATFORM_WAYLAND_EXT, display: or_default(d) }
        } else {
            DisplayCall::Legacy { display: or_default(d) }
        },
        NativeDisplay::Android => if exts.contains("EGL_KHR_platform_android".spec_bytes())
            && platform_loaded {
            DisplayCall::Platform { platform: egl::PLATFORM_ANDROID_KHR, display: 0 }
        } else {
            DisplayCall::Legacy { display: 0 }
        },
        NativeDisplay::Device(d) => if exts.contains("EGL_EXT_platform_device".spec_bytes())
            && platform_loaded {
            DisplayCall::Platform { platform: egl::PLATFORM_DEVICE_EXT, display: d }
        } else {
            DisplayCall::Legacy { display: d }
        },
        NativeDisplay::Other(d) => DisplayCall::Legacy { display: or_default(d) },
    }
}

/// Decide how to obtain the display for `native_display`, given the extensions reported without
/// a display and whether `eglGetPlatformDisplay` and `eglGetPlatformDisplayEXT` were loaded.
pub fn native_display_call(
    native_display: NativeDisplay,
    no_display_extensions: &ExtensionSet,
    platform_loaded: bool,
    platform_ext_loaded: bool,
) -> (r: DisplayCall)
    ensures
        r == spec_display_call(
            native_display,
            no_display_extensions@,
            platform_loaded,
            platform_ext_loaded,
        ),
{
    let exts = no_display_extensions;
    match native_display {
        NativeDisplay::X11(d) => {
            let d = match d { Some(d) => d, None => 0 };
            if exts.contains("EGL_KHR_platform_x11") && platform_loaded {
                DisplayCall::Platform { platform: egl::PLATFORM_X11_KHR, display: d }
            } else if exts.contains("EGL_EXT_platform_x11") && platform_ext_loaded {
                DisplayCall::PlatformExt { platform: egl::PLATFORM_X11_EXT, display: d }
            } else {
                DisplayCall::Legacy { display: d }
            }
        },
        NativeDisplay::Gbm(d) => {
            let d = match d { Some(d) => d, None => 0 };
            if exts.contains("EGL_KHR_platform_gbm") && platform_loaded {
                DisplayCall::Platform { platform: egl::PLATFORM_GBM_KHR, display: d }
            } else if exts.contains("EGL_MESA_platform_gbm") && platform_ext_loaded {
                DisplayCall::PlatformExt { platform: egl::PLATFORM_GBM_KHR, display: d }
            } else {
                DisplayCall::Legacy { display: d }
            }
        },
        NativeDisplay::Wayland(d) => {
            let d = match d { Some(d) => d, None => 0 };
            if exts.contains("EGL_KHR_platform_wayland") && platform_loaded {
                DisplayCall::Platform { platform: egl::PLATFORM_WAYLAND_KHR, display: d }
            } else if exts.contains("EGL_EXT_platform_wayland") && platform_ext_loaded {
                DisplayCall::PlatformExt { platform: egl::PLATFORM_WAYLAND_EXT, display: d }
            } else {
                DisplayCall::Legacy { display: d }
            }
        },
        NativeDisplay::Android => {
            if exts.contains("EGL_KHR_platform_android") && platform_loaded {
                DisplayCall::Platform { platform: egl::PLATFORM_ANDROID_KHR, display: 0 }
            } else {
                DisplayCall::Legacy { display: 0 }
            }
        },
        NativeDisplay::Device(d) => {
            if exts.contains("EGL_EXT_platform_device") && platform_loaded {
                DisplayCall::Platform { platform: egl::PLATFORM_DEVICE_EXT, display: d }
            } else {
                DisplayCall::Legacy { display: d }
            }
        },
        NativeDisplay::Other(d) => {
            let d = match d { Some(d) => d, None => 0 };
            DisplayCall::Legacy { display: d }
        },
    }
}

/// The extensions of a display, read only from EGL 1.2 on; before that the list is empty.
pub fn display_extensions(egl_version: (i32, i32), list: Option<&str>) -> (r: ExtensionSet)
    ensures
        egl_at_least(egl_version, 1, 2) && list is Some ==> r@ == crate::extensions::split_spaces(
            list->0.spec_bytes(),
        ).to_set(),
        !(egl_at_least(egl_version, 1, 2) && list is Some) ==> r@ == Set::<Seq<u8>>::empty(),
{
    match list {
        Some(l) if egl_version_at_least(egl_version, 1, 2) => ExtensionSet::from_str(l),
        _ => ExtensionSet::new(),
    }
}

/// Whether the display can create contexts with attributes: EGL 1.5 or
/// `EGL_KHR_create_context`.
pub open spec fn has_create_context(v: (i32, i32), exts: Set<Seq<u8>>) -> bool {
    egl_at_least(v, 1, 5) || exts.contains("EGL_KHR_create_context".spec_bytes())
}

/// Whether the display supports robust contexts: EGL 1.5 or
/// `EGL_EXT_create_context_robustness`.
pub open spec fn has_robustness(v: (i32, i32), exts: Set<Seq<u8>>) -> bool {
    egl_at_least(v, 1, 5) || exts.contains("EGL_EXT_create_context_robustness".spec_bytes())
}

/// The robustness attributes of the legacy context creation, and whether they set the robust
/// access flag (the flag carries the value of `EGL_CONTEXT_OPENGL_ROBUST_ACCESS`).
pub open spec fn legacy_robustness_part(
    r: Robustness,
    robust: bool,
    no_error: bool,
) -> (Seq<i32>, bool) {
    match r {
        Robustness::NotRobust => (Seq::empty(), false),
        Robustness::NoError => if no_error {
            (pair(egl::CONTEXT_OPENGL_NO_ERROR_KHR, 1), false)
        } else {
            (Seq::empty(), false)
        },
        Robustness::RobustNoResetNotification | Robustness::TryRobustNoResetNotification => if robust {
            (pair(egl::CONTEXT_OPENGL_RESET_NOTIFICATION_STRATEGY, egl::NO_RESET_NOTIFICATION), true)
        } else {
            (Seq::empty(), false)
        },
        Robustness::RobustLoseContextOnReset | Robustness::TryRobustLoseContextOnReset => if robust {
            (pair(egl::CONTEXT_OPENGL_RESET_NOTIFICATION_STRATEGY, egl::LOSE_CONTEXT_ON_RESET), true)
        } else {
            (Seq::empty(), false)
        },
    }
}

/// Whether the legacy context creation refuses the robustness request.
pub open spec fn legacy_robustness_refused(
    v: (i32, i32),
    exts: Set<Seq<u8>>,
    api: GlApi,
    r: Robustness,
) -> bool {
    if has_create_context(v, exts) {
        (r is RobustNoResetNotification || r is RobustLoseContextOnReset) && !has_robustness(v, exts)
    } else if egl_at_least(v, 1, 3) && api == GlApi::OpenGlEs {
        r is RobustNoResetNotification || r is RobustLoseContextOnReset
    } else {
        false
    }
}

/// The attribute list of the legacy context creation at `version`, when the robustness request
/// is not refused.
pub open spec fn spec_legacy_context_attributes(
    v: (i32, i32),
    exts: Set<Seq<u8>>,
    api: GlApi,
    version: GlVersion,
    robustness: Robustness,
    debug: bool,
) -> Seq<i32> {
    if has_create_context(v, exts) {
        let (rob, flag) = legacy_robustness_part(
            robustness,
            has_robustness(v, exts),
            exts.contains("EGL_KHR_create_context_no_error".spec_bytes()),
        );
        pair(egl::CONTEXT_MAJOR_VERSION, version.0 as i32) + pair(
            egl::CONTEXT_MINOR_VERSION,
            version.1 as i32,
        ) + rob + (if debug && egl_at_least(v, 1, 5) {
            pair(egl::CONTEXT_OPENGL_DEBUG, egl::TRUE)
        } else {
            Seq::empty()
        }) + (if flag {
            pair(egl::CONTEXT_FLAGS_KHR, egl::CONTEXT_OPENGL_ROBUST_ACCESS)
        } else {
            Seq::empty()
        }) + seq![egl::NONE]
    } else if egl_at_least(v, 1, 3) && api == GlApi::OpenGlEs {
        pair(egl::CONTEXT_CLIENT_VERSION, version.0 as i32) + seq![egl::NONE]
    } else {
        seq![egl::NONE]
    }
}

/// The attribute list `eglCreateContext` gets in the legacy backend, for a context of `api` at
/// `version`. A robust request the display can't serve is refused.
pub fn legacy_context_attributes(
    egl_version: (i32, i32),
    extensions: &ExtensionSet,
    api: GlApi,
    version: GlVersion,
    robustness: Robustness,
    debug: bool,
) -> (r: Result<Vec<i32>, CreationError>)
    ensures
        r is Err <==> legacy_robustness_refused(egl_version, extensions@, api, robustness),
        r matches Err(e) ==> e == CreationError::RobustnessNotSupported,
        r matches Ok(a) ==> a@ == spec_legacy_context_attributes(
            egl_version,
            extensions@,
            api,
            version,
            robustness,
            debug,
        ),
{
    let mut attrs: Vec<i32> = Vec::new();
    let one_five = egl_version_at_least(egl_version, 1, 5);
    if one_five || extensions.contains("EGL_KHR_create_context") {
        push_pair(&mut attrs, egl::CONTEXT_MAJOR_VERSION, version.0 as i32);
        push_pair(&mut attrs, egl::CONTEXT_MINOR_VERSION, version.1 as i32);
        let ghost s1 = attrs@;
        let supports_robustness = one_five || extensions.contains("EGL_EXT_create_context_robustness");
        let no_error = extensions.contains("EGL_KHR_create_context_no_error");
        let mut flags: i32 = 0;
        match robustness {
            Robustness::NotRobust => {},
            Robustness::NoError => {
                if no_error {
                    push_pair(&mut attrs, egl::CONTEXT_OPENGL_NO_ERROR_KHR, 1);
                }
            },
            Robustness::RobustNoResetNotification | Robustness::TryRobustNoResetNotification => {
                if supports_robustness {
                    push_pair(
                        &mut attrs,
                        egl::CONTEXT_OPENGL_RESET_NOTIFICATION_STRATEGY,
                        egl::NO_RESET_NOTIFICATION,
                    );
                    flags = egl::CONTEXT_OPENGL_ROBUST_ACCESS;
                } else if matches!(robustness, Robustness::RobustNoResetNotification) {
                    return Err(CreationError::RobustnessNotSupported);
                }
            },
            Robustness::RobustLoseContextOnReset | Robustness::TryRobustLoseContextOnReset => {
                if supports_robustness {
                    push_pair(
                        &mut attrs,
                        egl::CONTEXT_OPENGL_RESET_NOTIFICATION_STRATEGY,
                        egl::LOSE_CONTEXT_ON_RESET,
                    );
                    flags = egl::CONTEXT_OPENGL_ROBUST_ACCESS;
                } else if matches!(robustness, Robustness::RobustLoseContextOnReset) {
                    return Err(CreationError::RobustnessNotSupported);
                }
            },
        }
        let ghost s2 = attrs@;
        if debug && one_five {
            push_pair(&mut attrs, egl::CONTEXT_OPENGL_DEBUG, egl::TRUE);
        }
        let ghost s3 = attrs@;
        if flags != 0 {
            push_pair(&mut attrs, egl::CONTEXT_FLAGS_KHR, flags);
        }
        let ghost s4 = attrs@;
        attrs.push(egl::NONE);
        proof {
            let (rob, flag) = legacy_robustness_part(
                robustness,
                has_robustness(egl_version, extensions@),
                extensions@.contains("EGL_KHR_create_context_no_error".spec_bytes()),
            );
            assert(s2 =~= s1 + rob);
            assert(flag <==> flags != 0);
            assert(attrs@ =~= spec_legacy_context_attributes(
                egl_version,
                extensions@,
                api,
                version,
                robustness,
                debug,
            ));
        }
        Ok(attrs)
    } else if egl_version_at_least(egl_version, 1, 3) && api == GlApi::OpenGlEs {
        match robustness {
            Robustness::RobustNoResetNotification | Robustness::RobustLoseContextOnReset => {
                return Err(CreationError::RobustnessNotSupported);
            },
            _ => {},
        }
        push_pair(&mut attrs, egl::CONTEXT_CLIENT_VERSION, version.0 as i32);
        attrs.push(egl::NONE);
        assert(attrs@ =~= pair(egl::CONTEXT_CLIENT_VERSION, version.0 as i32) + seq![egl::NONE]);
        Ok(attrs)
    } else {
        attrs.push(egl::NONE);
        assert(attrs@ =~= seq![egl::NONE]);
        Ok(attrs)
    }
}

/// What a failed `eglCreateContext` means for the legacy backend: a bad match or a bad attribute
/// says the version is not supported; any other code is a failure the backend does not recover
/// from (`None`).
pub fn create_context_failure(code: u32) -> (r: Option<CreationError>)
    ensures
        r is Some <==> (code == egl::BAD_MATCH || code == egl::BAD_ATTRIBUTE),
        r matches Some(e) ==> e == CreationError::OpenGlVersionNotSupported,
{
    if code == egl::BAD_MATCH || code == egl::BAD_ATTRIBUTE {
        Some(CreationError::OpenGlVersionNotSupported)
    } else {
        None
    }
}

/// The result of `eglCreateContext` in the legacy backend: the context when one was made;
/// otherwise `eglGetError` said a bad match or a bad attribute, which means the version is not
/// supported. Any other code is a failure the backend does not recover from, so it is left out.
pub fn context_created(context: usize, error: u32) -> (r: Result<usize, CreationError>)
    requires
        context != 0 || error == egl::BAD_MATCH || error == egl::BAD_ATTRIBUTE,
    ensures
        context != 0 ==> r == Ok::<usize, CreationError>(context),
        context == 0 ==> r == Err::<usize, CreationError>(CreationError::OpenGlVersionNotSupported),
{
    if context != 0 {
        Ok(context)
    } else {
        Err(CreationError::OpenGlVersionNotSupported)
    }
}

/// The context a legacy `Context::new` ends with, given the outcomes of the tries at the
/// versions of [`context_versions`], in that order: the first context made, with the index of
/// its try (no later version is tried); when no try made one, the failure of the only try of a
/// version that was asked for (`report_as_is`), or else `OpenGlVersionNotSupported`.
pub fn first_created_context(outcomes: Vec<Result<usize, CreationError>>, report_as_is: bool) -> (r:
    Result<(usize, usize), CreationError>)
    ensures
        r matches Ok(p) ==> {
            &&& 0 <= p.0 < outcomes@.len()
            &&& outcomes@[p.0 as int] == Ok::<usize, CreationError>(p.1)
            &&& forall|j: int| 0 <= j < p.0 ==> outcomes@[j] is Err
        },
        r is Err <==> forall|j: int| 0 <= j < outcomes@.len() ==> outcomes@[j] is Err,
        r matches Err(e) ==> (if report_as_is && outcomes@.len() == 1 {
            outcomes@[0] == Err::<usize, CreationError>(e)
        } else {
            e == CreationError::OpenGlVersionNotSupported
        }),
{
    let n = outcomes.len();
    let mut i: usize = 0;
    while i < n
        invariant
            n == outcomes@.len(),
            i <= n,
            forall|j: int| 0 <= j < i ==> outcomes@[j] is Err,
        decreases n - i,
    {
        match &outcomes[i] {
            Ok(c) => {
                return Ok((i, *c));
            },
            Err(_) => {},
        }
        i += 1;
    }
    if report_as_is && n == 1 {
        let ghost before = outcomes@;
        let mut v = outcomes;
        match v.pop() {
            Some(Err(e)) => {
                assert(before[0] == Err::<usize, CreationError>(e));
                return Err(e);
            },
            _ => {
                assert(before[0] is Err);
            },
        }
    }
    Err(CreationError::OpenGlVersionNotSupported)
}

/// The versions a legacy context is tried at, in order, and whether the failure of the last
/// try is reported as is (a version that was asked for) or as an unsupported version.
pub open spec fn spec_context_versions(attribs: ConfigAttribs) -> (Seq<GlVersion>, bool) {
    match attribs.version {
        Some(v) => (seq![v], true),
        None => if attribs.api == GlApi::OpenGlEs {
            (seq![GlVersion(2, 0), GlVersion(1, 0)], false)
        } else {
            (seq![GlVersion(3, 2), GlVersion(3, 1), GlVersion(1, 0)], false)
        },
    }
}

/// The versions to try when creating a legacy context, in order. When surfaceless use is asked
/// for, the display must report `EGL_KHR_surfaceless_context`.
pub fn context_versions(
    attribs: &ConfigAttribs,
    supports_surfaceless: bool,
    extensions: &ExtensionSet,
) -> (r: Result<(Vec<GlVersion>, bool), CreationError>)
    ensures
        r is Err <==> supports_surfaceless && !extensions.spec_has("EGL_KHR_surfaceless_context"),
        r matches Err(e) ==> (e matches CreationError::NotSupported(m) && m@
            == "EGL surfaceless not supported"@),
        r matches Ok(p) ==> p.0@ == spec_context_versions(*attribs).0 && p.1 == spec_context_versions(
            *attribs,
        ).1,
{
    if supports_surfaceless && !extensions.contains("EGL_KHR_surfaceless_context") {
        let m = String::from_str("EGL surfaceless not supported");
        return Err(CreationError::NotSupported(m));
    }
    let mut v: Vec<GlVersion> = Vec::new();
    match attribs.version {
        Some(version) => {
            v.push(version);
            assert(v@ =~= seq![version]);
            Ok((v, true))
        },
        None => {
            if attribs.api == GlApi::OpenGlEs {
                v.push(GlVersion(2, 0));
                v.push(GlVersion(1, 0));
                assert(v@ =~= seq![GlVersion(2, 0), GlVersion(1, 0)]);
            } else {
                v.push(GlVersion(3, 2));
                v.push(GlVersion(3, 1));
                v.push(GlVersion(1, 0));
                assert(v@ =~= seq![GlVersion(3, 2), GlVersion(3, 1), GlVersion(1, 0)]);
            }
            Ok((v, false))
        },
    }
}

/// The outcome of `eglMakeCurrent` in the legacy backend: `ret` is what it returned (`None`
/// when it was not called), `error` what `eglGetError` said after a failure. A failure other
/// than a lost context is not recovered from, so it is left out.
pub fn check_make_current(ret: Option<u32>, error: u32) -> (r: Result<(), ContextError>)
    requires
        ret == Some(0u32) ==> error == egl::CONTEXT_LOST,
    ensures
        r is Err <==> ret == Some(0u32),
        r matches Err(e) ==> e == ContextError::ContextLost,
{
    if ret == Some(0u32) {
        Err(ContextError::ContextLost)
    } else {
        Ok(())
    }
}

/// Whether a legacy swap can go on: a surface that no longer exists means a lost context.
pub fn check_surface_alive(surface: usize) -> (r: Result<(), ContextError>)
    ensures
        r is Err <==> surface == 0,
        r matches Err(e) ==> e == ContextError::ContextLost,
{
    if surface == 0 {
        Err(ContextError::ContextLost)
    } else {
        Ok(())
    }
}

/// The rectangles flattened into the `x, y, width, height` list that
/// `eglSwapBuffersWithDamageKHR` reads.
pub open spec fn spec_flatten_rects(rects: Seq<Rect>) -> Seq<i32>
    decreases rects.len(),
{
    if rects.len() == 0 {
        Seq::empty()
    } else {
        let r = rects.last();
        spec_flatten_rects(rects.drop_last()) + seq![r.x as i32, r.y as i32, r.width as i32, r.height as i32]
    }
}

/// Flatten the damage rectangles for `eglSwapBuffersWithDamageKHR`.
pub fn flatten_rects(rects: &[Rect]) -> (r: Vec<i32>)
    ensures
        r@ == spec_flatten_rects(rects@),
{
    let mut out: Vec<i32> = Vec::new();
    let n = rects.len();
    for i in 0..n
        invariant
            n == rects@.len(),
            out@ == spec_flatten_rects(rects@.take(i as int)),
    {
        let r = rects[i];
        assert(rects@.take(i + 1).drop_last() =~= rects@.take(i as int));
        out.push(r.x as i32);
        out.push(r.y as i32);
        out.push(r.width as i32);
        out.push(r.height as i32);
        assert(out@ =~= spec_flatten_rects(rects@.take(i + 1)));
    }
    assert(rects@.take(n as int) =~= rects@);
    out
}

/// Each rectangle gives four values, so the list is four times as long as the rectangles.
pub proof fn lemma_flatten_length(rects: Seq<Rect>)
    ensures
        spec_flatten_rects(rects).len() == 4 * rects.len(),
    decreases rects.len(),
{
    if rects.len() > 0 {
        lemma_flatten_length(rects.drop_last());
    }
}

/// The damage swap of the legacy backend: refused with an os error when
/// `eglSwapBuffersWithDamageKHR` is not loaded, a lost context when the surface is gone, else
/// the flattened rectangles and their count.
pub fn damage_swap_arguments(damage_loaded: bool, surface: usize, rects: &[Rect]) -> (r: Result<
    (Vec<i32>, i32),
    ContextError,
>)
    requires
        rects@.len() <= i32::MAX,
    ensures
        r is Ok <==> damage_loaded && surface != 0,
        !damage_loaded ==> (r matches Err(ContextError::OsError(m)) && m@
            == "buffer damage not suported"@),
        damage_loaded && surface == 0 ==> r == Err::<(Vec<i32>, i32), ContextError>(
            ContextError::ContextLost,
        ),
        r matches Ok(p) ==> p.0@ == spec_flatten_rects(rects@) && p.1 == rects@.len(),
{
    if !damage_loaded {
        let m = String::from_str("buffer damage not suported");
        return Err(ContextError::OsError(m));
    }
    if surface == 0 {
        return Err(ContextError::ContextLost);
    }
    let flat = flatten_rects(rects);
    Ok((flat, rects.len() as i32))
}

/// The attribute list `eglCreatePbufferSurface` gets in the legacy backend.
pub fn pbuffer_attributes(width: u32, height: u32) -> (r: Vec<i32>)
    ensures
        r@ == seq![egl::WIDTH, width as i32, egl::HEIGHT, height as i32, egl::NONE],
{
    let mut attrs: Vec<i32> = Vec::new();
    attrs.push(egl::WIDTH);
    attrs.push(width as i32);
    attrs.push(egl::HEIGHT);
    attrs.push(height as i32);
    attrs.push(egl::NONE);
    assert(attrs@ =~= seq![egl::WIDTH, width as i32, egl::HEIGHT, height as i32, egl::NONE]);
    attrs
}

/// The Api to bind again before a context is created for a config of Api `api`: from EGL 1.2
/// on, OpenGL (with EGL 1.4) or OpenGL ES; `None` where nothing is bound.
pub fn rebind_api_call(api: GlApi, egl_version: (i32, i32)) -> (r: Option<u32>)
    ensures
        !egl_at_least(egl_version, 1, 2) ==> r is None,
        egl_at_least(egl_version, 1, 2) && api is OpenGlEs ==> r == Some(egl::OPENGL_ES_API),
        egl_at_least(egl_version, 1, 4) && api is OpenGl ==> r == Some(egl::OPENGL_API),
        !egl_at_least(egl_version, 1, 4) && api is OpenGl ==> r is None,
        api is WebGl ==> r is None,
{
    if !egl_version_at_least(egl_version, 1, 2) {
        return None;
    }
    match api {
        GlApi::OpenGl => {
            if egl_version_at_least(egl_version, 1, 4) {
                Some(egl::OPENGL_API)
            } else {
                None
            }
        },
        GlApi::OpenGlEs => Some(egl::OPENGL_ES_API),
        GlApi::WebGl => None,
    }
}

/// A failed rebinding means the version is not supported.
pub fn rebind_outcome(bound: bool) -> (r: Result<(), CreationError>)
    ensures
        bound ==> r is Ok,
        !bound ==> r == Err::<(), CreationError>(CreationError::OpenGlVersionNotSupported),
{
    if bound {
        Ok(())
    } else {
        Err(CreationError::OpenGlVersionNotSupported)
    }
}

/// Whether making a context current on a surface first turns vsync off: the first time a
/// window surface is made current, where vsync was not asked for (it is on by default).
pub fn disables_vsync_first(has_been_current: bool, is_pbuffer: bool, vsync: bool) -> (r: bool)
    ensures
        r == (!has_been_current && !is_pbuffer && !vsync),
{
    !has_been_current && !is_pbuffer && !vsync
}

/// The message of a failed `eglCreateWindowSurface`.
#[verifier::external_body]
fn window_surface_message(code: u32) -> String {
    format!("eglCreateWindowSurface failed with 0x{:x}", code)
}

/// The window surface that `eglCreateWindowSurface` returned, checked: a null surface fails
/// with what `eglGetError` reported (`error_code`).
pub fn window_surface_created(surface: usize, error_code: u32) -> (r: Result<usize, CreationError>)
    ensures
        surface != 0 ==> r == Ok::<usize, CreationError>(surface),
        surface == 0 ==> (r matches Err(e) && e is OsError),
{
    if surface == 0 {
        Err(CreationError::OsError(window_surface_message(error_code)))
    } else {
        Ok(surface)
    }
}

/// The pbuffer that `eglCreatePbufferSurface` returned, checked.
pub fn pbuffer_created(surface: usize) -> (r: Result<usize, CreationError>)
    ensures
        surface != 0 ==> r == Ok::<usize, CreationError>(surface),
        surface == 0 ==> (r matches Err(CreationError::OsError(m)) && m@
            == "eglCreatePbufferSurface failed"@),
{
    if surface == 0 {
        let m = String::from_str("eglCreatePbufferSurface failed");
        Err(CreationError::OsError(m))
    } else {
        Ok(surface)
    }
}

/// Whether a legacy surface is current: as the draw or as the read surface.
pub fn surface_is_current(surface: usize, current_draw: usize, current_read: usize) -> (r: bool)
    ensures
        r == (current_draw == surface || current_read == surface),
{
    current_draw == surface || current_read == surface
}

/// An initialized display of the legacy backend: the `EGLDisplay` handle, the version that
/// `eglInitialize` reported and the extensions the display lists.
#[derive(Debug)]
pub struct DisplayInternal {
    display: usize,
    egl_version: (i32, i32),
    extensions: ExtensionSet,
}

impl DisplayInternal {
    /// The handle of the display.
    pub closed spec fn spec_display(&self) -> usize {
        self.display
    }

    /// The version of EGL the display was initialized with.
    pub closed spec fn spec_egl_version(&self) -> (i32, i32) {
        self.egl_version
    }

    /// The names of the extensions the display lists.
    pub closed spec fn spec_extensions(&self) -> Set<Seq<u8>> {
        self.extensions@
    }

    /// Build the display from what the platform calls returned: the handle that
    /// `eglGetDisplay` (or its platform variant) gave, the version `eglInitialize` reported
    /// (`None` when it failed) and the extension string of the display.
    pub fn new(display: usize, initialized: Option<(i32, i32)>, list: Option<&str>) -> (r: Result<
        Self,
        CreationError,
    >)
        ensures
            display == 0 ==> (r matches Err(CreationError::OsError(m)) && m@
                == "Could not create EGL display object"@),
            display != 0 && initialized is None ==> (r matches Err(CreationError::OsError(m)) && m@
                == "eglInitialize failed"@),
            r is Ok <==> display != 0 && initialized is Some,
            r matches Ok(d) ==> {
                &&& d.spec_display() == display
                &&& d.spec_egl_version() == initialized->0
                &&& (egl_at_least(initialized->0, 1, 2) && list is Some ==> d.spec_extensions()
                    == crate::extensions::split_spaces(list->0.spec_bytes()).to_set())
                &&& (!(egl_at_least(initialized->0, 1, 2) && list is Some)
                    ==> d.spec_extensions() == Set::<Seq<u8>>::empty())
            },
    {
        if display == 0 {
            let m = String::from_str("Could not create EGL display object");
            return Err(CreationError::OsError(m));
        }
        let egl_version = match initialized {
            Some(v) => v,
            None => {
                let m = String::from_str("eglInitialize failed");
                return Err(CreationError::OsError(m));
            },
        };
        let extensions = display_extensions(egl_version, list);
        Ok(DisplayInternal { display, egl_version, extensions })
    }

    /// The handle of the display.
    pub fn display(&self) -> (r: usize)
        ensures
            r == self.spec_display(),
    {
        self.display
    }

    /// The version of EGL the display was initialized with.
    pub fn egl_version(&self) -> (r: (i32, i32))
        ensures
            r == self.spec_egl_version(),
    {
        self.egl_version
    }

    /// Whether the display lists the extension `name`.
    pub fn has_extension(&self, name: &str) -> (r: bool)
        ensures
            r == self.spec_extensions().contains(name.spec_bytes()),
    {
        self.extensions.contains(name)
    }
}

/// The kinds of surface of the legacy backend.
pub trait SurfaceTypeTrait {}

/// The kind of a window surface, a marker that surfaces are told apart by.
#[derive(Debug, Clone, Copy, PartialEq, Eq)]
pub enum WindowSurfaceType {
    Window,
}

/// The kind of a pbuffer surface, a marker that surfaces are told apart by.
#[derive(Debug, Clone, Copy, PartialEq, Eq)]
pub enum PBufferSurfaceType {
    PBuffer,
}

impl SurfaceTypeTrait for WindowSurfaceType {}

impl SurfaceTypeTrait for PBufferSurfaceType {}

} // verus!
