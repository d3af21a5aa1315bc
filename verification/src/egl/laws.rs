//! What the EGL requests ask of the driver: the profile and version of an OpenGL context, the
//! native display a platform display is opened on, and the surface kinds a config reports.
use vstd::prelude::*;
use vstd::string::StringSliceAdditionalSpecFns;

use super::config::{pair, renderable_type_mask, spec_api, spec_surface_types, surface_type_mask};
use super::consts as egl;
use super::context::{khr_attribute_list, spec_context_attribute_list};
use super::display::{spec_ext_request, spec_khr_request};
use super::surface::{
    colorspace_part, pbuffer_attribute_list, pixmap_attribute_list, window_attribute_list,
};
use crate::attributes::{
    attribute_value, lemma_attribute_value_concat, lemma_attribute_value_pair,
    lemma_attribute_value_short, lemma_optional_pair, optional_pair,
};
use crate::config::{Api, ConfigSurfaceTypes, DisplayFeatures, NativeDisplayHandle};
use crate::context::{ContextAttributes, GlProfile, Version};

verus! {

proof fn lemma_opengl_khr_list(
    version: Option<Version>,
    opengl_profile: (GlProfile, Version),
    attributes: ContextAttributes,
    is_one_five: bool,
)
    ensures
        ({
            let l = khr_attribute_list(
                egl::OPENGL_API,
                version,
                opengl_profile,
                attributes.robustness,
                attributes.debug,
                is_one_five,
            );
            &&& attribute_value(l, egl::CONTEXT_OPENGL_PROFILE_MASK) == Some(
                match opengl_profile.0 {
                    GlProfile::Core => egl::CONTEXT_OPENGL_CORE_PROFILE_BIT,
                    GlProfile::Compatibility => egl::CONTEXT_OPENGL_COMPATIBILITY_PROFILE_BIT,
                },
            )
            &&& attribute_value(l, egl::CONTEXT_MAJOR_VERSION) == Some(opengl_profile.1.major as i32)
            &&& attribute_value(l, egl::CONTEXT_MINOR_VERSION) == Some(opengl_profile.1.minor as i32)
        }),
{
    let l = khr_attribute_list(
        egl::OPENGL_API,
        version,
        opengl_profile,
        attributes.robustness,
        attributes.debug,
        is_one_five,
    );
    let bit = match opengl_profile.0 {
        GlProfile::Core => egl::CONTEXT_OPENGL_CORE_PROFILE_BIT,
        GlProfile::Compatibility => egl::CONTEXT_OPENGL_COMPATIBILITY_PROFILE_BIT,
    };
    let p = pair(egl::CONTEXT_OPENGL_PROFILE_MASK, bit);
    let ma = pair(egl::CONTEXT_MAJOR_VERSION, opengl_profile.1.major as i32);
    let mi = pair(egl::CONTEXT_MINOR_VERSION, opengl_profile.1.minor as i32);
    let rest = l.subrange(6, l.len() as int);
    assert(l =~= p + (ma + (mi + rest)));
    lemma_attribute_value_pair(egl::CONTEXT_OPENGL_PROFILE_MASK, bit, egl::CONTEXT_OPENGL_PROFILE_MASK);
    lemma_attribute_value_pair(egl::CONTEXT_OPENGL_PROFILE_MASK, bit, egl::CONTEXT_MAJOR_VERSION);
    lemma_attribute_value_pair(egl::CONTEXT_OPENGL_PROFILE_MASK, bit, egl::CONTEXT_MINOR_VERSION);
    lemma_attribute_value_pair(
        egl::CONTEXT_MAJOR_VERSION,
        opengl_profile.1.major as i32,
        egl::CONTEXT_MAJOR_VERSION,
    );
    lemma_attribute_value_pair(
        egl::CONTEXT_MAJOR_VERSION,
        opengl_profile.1.major as i32,
        egl::CONTEXT_MINOR_VERSION,
    );
    lemma_attribute_value_pair(
        egl::CONTEXT_MINOR_VERSION,
        opengl_profile.1.minor as i32,
        egl::CONTEXT_MINOR_VERSION,
    );
    lemma_attribute_value_concat(p, ma + (mi + rest), egl::CONTEXT_OPENGL_PROFILE_MASK);
    lemma_attribute_value_concat(p, ma + (mi + rest), egl::CONTEXT_MAJOR_VERSION);
    lemma_attribute_value_concat(p, ma + (mi + rest), egl::CONTEXT_MINOR_VERSION);
    lemma_attribute_value_concat(ma, mi + rest, egl::CONTEXT_MAJOR_VERSION);
    lemma_attribute_value_concat(ma, mi + rest, egl::CONTEXT_MINOR_VERSION);
    lemma_attribute_value_concat(mi, rest, egl::CONTEXT_MINOR_VERSION);
}

/// An OpenGL context made with EGL 1.5 or `EGL_KHR_create_context` asks for the profile that
/// was picked: the core profile bit for a core profile, the compatibility bit for a
/// compatibility profile; and for the version picked with it.
pub proof fn lemma_opengl_context_profile(
    version: Option<Version>,
    opengl_profile: (GlProfile, Version),
    attributes: ContextAttributes,
    egl_version: Version,
    has_khr_create_context: bool,
    features: DisplayFeatures,
)
    requires
        egl_version.spec_at_least(Version { major: 1, minor: 5 }) || has_khr_create_context,
    ensures
        spec_context_attribute_list(
            egl::OPENGL_API,
            version,
            opengl_profile,
            attributes,
            egl_version,
            has_khr_create_context,
            features,
        ) matches Some(l) ==> {
            &&& attribute_value(l, egl::CONTEXT_OPENGL_PROFILE_MASK) == Some(
                match opengl_profile.0 {
                    GlProfile::Core => egl::CONTEXT_OPENGL_CORE_PROFILE_BIT,
                    GlProfile::Compatibility => egl::CONTEXT_OPENGL_COMPATIBILITY_PROFILE_BIT,
                },
            )
            &&& attribute_value(l, egl::CONTEXT_MAJOR_VERSION) == Some(opengl_profile.1.major as i32)
            &&& attribute_value(l, egl::CONTEXT_MINOR_VERSION) == Some(opengl_profile.1.minor as i32)
        },
{
    lemma_opengl_khr_list(
        version,
        opengl_profile,
        attributes,
        egl_version.spec_at_least(Version { major: 1, minor: 5 }),
    );
}

/// `eglGetPlatformDisplay` is asked for the very display the native handle carries: the
/// Wayland display, the Xlib display (with its screen), the GBM device; Android's default
/// display is the only one asked for as zero. Each goes with its own platform.
pub proof fn lemma_khr_request_uses_the_native_display(
    handle: NativeDisplayHandle,
    exts: Set<Seq<u8>>,
)
    ensures
        spec_khr_request(handle, exts) matches Some((platform, display, attrs)) ==> match handle {
            NativeDisplayHandle::Wayland { display: d } => platform == egl::PLATFORM_WAYLAND_KHR
                && display == d,
            NativeDisplayHandle::Xlib { display: d, screen } => platform == egl::PLATFORM_X11_KHR
                && display == d && attrs == seq![
                egl::PLATFORM_X11_SCREEN_KHR,
                screen as isize,
                egl::NONE as isize,
            ],
            NativeDisplayHandle::Gbm { gbm_device } => platform == egl::PLATFORM_GBM_KHR && display
                == gbm_device,
            NativeDisplayHandle::Android => platform == egl::PLATFORM_ANDROID_KHR && display == 0,
            _ => false,
        },
        match handle {
            NativeDisplayHandle::Wayland { .. } => spec_khr_request(handle, exts) is Some
                <==> exts.contains("EGL_KHR_platform_wayland".spec_bytes()),
            NativeDisplayHandle::Xlib { .. } => spec_khr_request(handle, exts) is Some
                <==> exts.contains("EGL_KHR_platform_x11".spec_bytes()),
            NativeDisplayHandle::Gbm { .. } => spec_khr_request(handle, exts) is Some
                <==> exts.contains("EGL_KHR_platform_gbm".spec_bytes()),
            NativeDisplayHandle::Android => spec_khr_request(handle, exts) is Some
                <==> exts.contains("EGL_KHR_platform_android".spec_bytes()),
            _ => spec_khr_request(handle, exts) is None,
        },
{
}

/// `eglGetPlatformDisplayEXT` is asked for the very display the native handle carries: the
/// Wayland display, the Xlib display, the Xcb connection (each X one with its screen), the GBM
/// device. Each goes with its own platform.
pub proof fn lemma_ext_request_uses_the_native_display(
    handle: NativeDisplayHandle,
    exts: Set<Seq<u8>>,
)
    ensures
        spec_ext_request(handle, exts) matches Some((platform, display, attrs)) ==> match handle {
            NativeDisplayHandle::Wayland { display: d } => platform == egl::PLATFORM_WAYLAND_EXT
                && display == d,
            NativeDisplayHandle::Xlib { display: d, screen } => platform == egl::PLATFORM_X11_EXT
                && display == d && attrs == seq![egl::PLATFORM_X11_SCREEN_EXT, screen, egl::NONE],
            NativeDisplayHandle::Xcb { connection, screen } => platform == egl::PLATFORM_XCB_EXT
                && display == connection && attrs == seq![
                egl::PLATFORM_XCB_EXT_ATTRIB,
                screen,
                egl::NONE,
            ],
            NativeDisplayHandle::Gbm { gbm_device } => platform == egl::PLATFORM_GBM_MESA && display
                == gbm_device,
            _ => false,
        },
{
}

/// The surface kinds a config reports are exactly those its `EGL_SURFACE_TYPE` bits say:
/// windows (bit 1, [`ConfigSurfaceTypes::window`]) for `EGL_WINDOW_BIT`, pixmaps (bit 2,
/// [`ConfigSurfaceTypes::pixmap`]) for `EGL_PIXMAP_BIT`, pbuffers (bit 4,
/// [`ConfigSurfaceTypes::pbuffer`]) for `EGL_PBUFFER_BIT`, and nothing else.
pub proof fn lemma_surface_types_follow_the_bits(raw: i32)
    ensures
        spec_surface_types(raw) & 1u8 != 0 <==> raw
            & egl::WINDOW_BIT != 0,
        spec_surface_types(raw) & 2u8 != 0 <==> raw
            & egl::PIXMAP_BIT != 0,
        spec_surface_types(raw) & 4u8 != 0 <==> raw
            & egl::PBUFFER_BIT != 0,
        spec_surface_types(raw) < 8,
{
    let s = spec_surface_types(raw);
    assert(s == (if raw & 4 != 0 { 1u8 } else { 0u8 }) | (if raw & 1 != 0 { 4u8 } else { 0u8 }) | (
    if raw & 2 != 0 { 2u8 } else { 0u8 }));
    assert(((s & 1 != 0) <==> (raw & 4 != 0)) && ((s & 2 != 0) <==> (raw & 2 != 0)) && ((s & 4
        != 0) <==> (raw & 1 != 0)) && s < 8) by (bit_vector)
        requires
            s == (if raw & 4 != 0 { 1u8 } else { 0u8 }) | (if raw & 1 != 0 { 4u8 } else { 0u8 }) | (
            if raw & 2 != 0 { 2u8 } else { 0u8 }),
    ;
}

/// A template's surface kinds come back unchanged from the `EGL_SURFACE_TYPE` mask it asks
/// for.
pub proof fn lemma_surface_types_round_trip(types: ConfigSurfaceTypes)
    requires
        types.bits < 8,
    ensures
        spec_surface_types(surface_type_mask(types)) == types.bits,
{
    let b = types.bits;
    let m = surface_type_mask(types);
    assert(m == (if b & 1 == 1 { 4i32 } else { 0i32 }) | (if b & 4 == 4 { 1i32 } else { 0i32 }) | (
    if b & 2 == 2 { 2i32 } else { 0i32 }));
    let s = spec_surface_types(m);
    assert(s == (if m & 4 != 0 { 1u8 } else { 0u8 }) | (if m & 1 != 0 { 4u8 } else { 0u8 }) | (
    if m & 2 != 0 { 2u8 } else { 0u8 }));
    assert(s == b) by (bit_vector)
        requires
            b < 8,
            m == (if b & 1 == 1 { 4i32 } else { 0i32 }) | (if b & 4 == 4 { 1i32 } else { 0i32 }) | (
            if b & 2 == 2 { 2i32 } else { 0i32 }),
            s == (if m & 4 != 0 { 1u8 } else { 0u8 }) | (if m & 1 != 0 { 4u8 } else { 0u8 }) | (
            if m & 2 != 0 { 2u8 } else { 0u8 }),
    ;
}

/// The `EGL_SURFACE_TYPE` mask a template asks for has `EGL_WINDOW_BIT` exactly for windows
/// (bit 1), `EGL_PIXMAP_BIT` exactly for pixmaps (bit 2) and `EGL_PBUFFER_BIT` exactly for
/// pbuffers (bit 4), and no other bit.
pub proof fn lemma_surface_type_mask_bits(types: ConfigSurfaceTypes)
    ensures
        surface_type_mask(types) & egl::WINDOW_BIT != 0 <==> types.bits & 1 == 1,
        surface_type_mask(types) & egl::PIXMAP_BIT != 0 <==> types.bits & 2 == 2,
        surface_type_mask(types) & egl::PBUFFER_BIT != 0 <==> types.bits & 4 == 4,
        0 <= surface_type_mask(types) < 8,
{
    let b = types.bits;
    let m = surface_type_mask(types);
    assert(m == (if b & 1 == 1 { 4i32 } else { 0i32 }) | (if b & 4 == 4 { 1i32 } else { 0i32 }) | (
    if b & 2 == 2 { 2i32 } else { 0i32 }));
    assert((m & 4 != 0 <==> b & 1 == 1) && (m & 2 != 0 <==> b & 2 == 2) && (m & 1 != 0 <==> b & 4
        == 4) && 0 <= m && m < 8) by (bit_vector)
        requires
            m == (if b & 1 == 1 { 4i32 } else { 0i32 }) | (if b & 4 == 4 { 1i32 } else { 0i32 }) | (
            if b & 2 == 2 { 2i32 } else { 0i32 }),
    ;
}

/// The `EGL_RENDERABLE_TYPE` mask asked for a set of Apis has `EGL_OPENGL_BIT` exactly for
/// OpenGL (bit 1), `EGL_OPENGL_ES_BIT` exactly for OpenGL ES 1 (bit 2), `EGL_OPENGL_ES2_BIT`
/// exactly for OpenGL ES 2 (bit 4) and `EGL_OPENGL_ES3_BIT` exactly for OpenGL ES 3 (bit 8).
pub proof fn lemma_renderable_type_mask_bits(api: Api)
    ensures
        renderable_type_mask(api) & egl::OPENGL_BIT != 0 <==> api.bits & 1 == 1,
        renderable_type_mask(api) & egl::OPENGL_ES_BIT != 0 <==> api.bits & 2 == 2,
        renderable_type_mask(api) & egl::OPENGL_ES2_BIT != 0 <==> api.bits & 4 == 4,
        renderable_type_mask(api) & egl::OPENGL_ES3_BIT != 0 <==> api.bits & 8 == 8,
{
    let b = api.bits;
    let m = renderable_type_mask(api);
    assert(m == (if b & 2 == 2 { 1i32 } else { 0i32 }) | (if b & 4 == 4 { 4i32 } else { 0i32 }) | (
    if b & 8 == 8 { 0x40i32 } else { 0i32 }) | (if b & 1 == 1 { 8i32 } else { 0i32 }));
    assert((m & 8 != 0 <==> b & 1 == 1) && (m & 1 != 0 <==> b & 2 == 2) && (m & 4 != 0 <==> b & 4
        == 4) && (m & 0x40 != 0 <==> b & 8 == 8)) by (bit_vector)
        requires
            m == (if b & 2 == 2 { 1i32 } else { 0i32 }) | (if b & 4 == 4 { 4i32 } else { 0i32 }) | (
            if b & 8 == 8 { 0x40i32 } else { 0i32 }) | (if b & 1 == 1 { 8i32 } else { 0i32 }),
    ;
}

/// The Apis a config reports are exactly those its `EGL_RENDERABLE_TYPE` bits say: OpenGL
/// (bit 1) for `EGL_OPENGL_BIT`, OpenGL ES 1 (bit 2) for `EGL_OPENGL_ES_BIT`, OpenGL ES 2
/// (bit 4) for `EGL_OPENGL_ES2_BIT`, OpenGL ES 3 (bit 8) for `EGL_OPENGL_ES3_BIT`, and nothing
/// else.
pub proof fn lemma_config_apis_follow_the_bits(raw: i32)
    ensures
        spec_api(raw) & 1u8 != 0 <==> raw & egl::OPENGL_BIT != 0,
        spec_api(raw) & 2u8 != 0 <==> raw & egl::OPENGL_ES_BIT != 0,
        spec_api(raw) & 4u8 != 0 <==> raw & egl::OPENGL_ES2_BIT != 0,
        spec_api(raw) & 8u8 != 0 <==> raw & egl::OPENGL_ES3_BIT != 0,
        spec_api(raw) < 16,
{
    let s = spec_api(raw);
    assert(s == (if raw & 8 != 0 { 1u8 } else { 0u8 }) | (if raw & 1 != 0 { 2u8 } else { 0u8 }) | (
    if raw & 4 != 0 { 4u8 } else { 0u8 }) | (if raw & 0x40 != 0 { 8u8 } else { 0u8 }));
    assert((s & 1 != 0 <==> raw & 8 != 0) && (s & 2 != 0 <==> raw & 1 != 0) && (s & 4 != 0 <==> raw
        & 4 != 0) && (s & 8 != 0 <==> raw & 0x40 != 0) && s < 16) by (bit_vector)
        requires
            s == (if raw & 8 != 0 { 1u8 } else { 0u8 }) | (if raw & 1 != 0 { 2u8 } else { 0u8 }) | (
            if raw & 4 != 0 { 4u8 } else { 0u8 }) | (if raw & 0x40 != 0 { 8u8 } else { 0u8 }),
    ;
}

proof fn lemma_colorspace_value(srgb: Option<bool>, srgb_capable: bool, k: isize)
    ensures
        colorspace_part(srgb, srgb_capable).len() % 2 == 0,
        attribute_value(colorspace_part(srgb, srgb_capable) + seq![egl::NONE as isize], k) == (
        if k == egl::GL_COLORSPACE as isize && srgb_capable {
            match srgb {
                Some(true) => Some(egl::GL_COLORSPACE_SRGB as isize),
                Some(false) => Some(egl::GL_COLORSPACE_LINEAR as isize),
                None => None,
            }
        } else {
            None
        }),
{
    let v = if srgb == Some(true) {
        egl::GL_COLORSPACE_SRGB as isize
    } else {
        egl::GL_COLORSPACE_LINEAR as isize
    };
    assert(colorspace_part(srgb, srgb_capable) == optional_pair(
        srgb is Some && srgb_capable,
        egl::GL_COLORSPACE as isize,
        v,
    ));
    lemma_optional_pair(srgb is Some && srgb_capable, egl::GL_COLORSPACE as isize, v, k);
    lemma_attribute_value_short(seq![egl::NONE as isize], k);
    lemma_attribute_value_concat(colorspace_part(srgb, srgb_capable), seq![egl::NONE as isize], k);
}

/// A window surface renders to the single buffer when single buffering is asked for and to the
/// back buffer otherwise; a window or pixmap surface asks for the sRGB colorspace when sRGB is
/// asked for, the linear one when it is asked against, each only where the config can take it,
/// and for no colorspace otherwise.
pub proof fn lemma_surface_buffer_and_colorspace(
    single_buffer: bool,
    srgb: Option<bool>,
    srgb_capable: bool,
)
    ensures
        attribute_value(window_attribute_list(single_buffer, srgb, srgb_capable), egl::RENDER_BUFFER as isize)
            == Some(
            if single_buffer {
                egl::SINGLE_BUFFER as isize
            } else {
                egl::BACK_BUFFER as isize
            },
        ),
        attribute_value(window_attribute_list(single_buffer, srgb, srgb_capable), egl::GL_COLORSPACE as isize)
            == (if srgb_capable {
            match srgb {
                Some(true) => Some(egl::GL_COLORSPACE_SRGB as isize),
                Some(false) => Some(egl::GL_COLORSPACE_LINEAR as isize),
                None => None,
            }
        } else {
            None
        }),
        attribute_value(pixmap_attribute_list(srgb, srgb_capable), egl::GL_COLORSPACE as isize) == (
        if srgb_capable {
            match srgb {
                Some(true) => Some(egl::GL_COLORSPACE_SRGB as isize),
                Some(false) => Some(egl::GL_COLORSPACE_LINEAR as isize),
                None => None,
            }
        } else {
            None
        }),
{
    let rb = seq![
        egl::RENDER_BUFFER as isize,
        if single_buffer {
            egl::SINGLE_BUFFER as isize
        } else {
            egl::BACK_BUFFER as isize
        },
    ];
    let tail = colorspace_part(srgb, srgb_capable) + seq![egl::NONE as isize];
    assert(window_attribute_list(single_buffer, srgb, srgb_capable) =~= rb + tail);
    lemma_colorspace_value(srgb, srgb_capable, egl::RENDER_BUFFER as isize);
    lemma_colorspace_value(srgb, srgb_capable, egl::GL_COLORSPACE as isize);
    let bv = if single_buffer {
        egl::SINGLE_BUFFER as isize
    } else {
        egl::BACK_BUFFER as isize
    };
    lemma_attribute_value_pair(egl::RENDER_BUFFER as isize, bv, egl::RENDER_BUFFER as isize);
    lemma_attribute_value_pair(egl::RENDER_BUFFER as isize, bv, egl::GL_COLORSPACE as isize);
    lemma_attribute_value_concat(rb, tail, egl::RENDER_BUFFER as isize);
    lemma_attribute_value_concat(rb, tail, egl::GL_COLORSPACE as isize);
}

/// A pbuffer surface asks for the width and the height it is made with, each under its own
/// name.
pub proof fn lemma_pbuffer_size(width: u32, height: u32)
    ensures
        attribute_value(pbuffer_attribute_list(width, height), egl::WIDTH) == Some(width as i32),
        attribute_value(pbuffer_attribute_list(width, height), egl::HEIGHT) == Some(height as i32),
{
    let w = seq![egl::WIDTH, width as i32];
    let h = seq![egl::HEIGHT, height as i32];
    let z = seq![egl::NONE];
    assert(pbuffer_attribute_list(width, height) =~= w + (h + z));
    lemma_attribute_value_pair(egl::WIDTH, width as i32, egl::WIDTH);
    lemma_attribute_value_pair(egl::WIDTH, width as i32, egl::HEIGHT);
    lemma_attribute_value_pair(egl::HEIGHT, height as i32, egl::HEIGHT);
    lemma_attribute_value_concat(w, h + z, egl::WIDTH);
    lemma_attribute_value_concat(w, h + z, egl::HEIGHT);
    lemma_attribute_value_concat(h, z, egl::HEIGHT);
}

} // verus!
