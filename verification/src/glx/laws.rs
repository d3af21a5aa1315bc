//! What a GLX display's extensions and version say it can do.
use vstd::prelude::*;
use vstd::string::StringSliceAdditionalSpecFns;

use super::config::{drawable_bits, spec_surface_bits};
use super::consts as glx;
use super::context::{spec_arb_attributes, spec_profile_version};
use super::surface::{pbuffer_attribute_list, spec_swap_methods, SwapMethod};
use super::spec_display_features;
use crate::attributes::{attribute_value, lemma_attribute_value_concat, lemma_attribute_value_pair};
use crate::config::{lemma_surface_kind_bits, ConfigSurfaceTypes, DisplayFeatures};
use crate::context::{ContextApi, ContextAttributes, GlProfile, Version};

verus! {

/// Each feature of a GLX display holds exactly when the display lists the extension that
/// provides it (one of several, where several do): multisampling also comes with GLX 1.4;
/// robust contexts come with `GLX_ARB_create_context_robustness` and nothing else.
pub proof fn lemma_glx_features_follow_extensions(exts: Set<Seq<u8>>, version: Version)
    ensures
        ({
            let f = spec_display_features(exts, version);
            &&& f.multisampling_pixel_formats <==> (version.major > 1 || (version.major == 1
                && version.minor >= 4) || exts.contains("GLX_ARB_multisample".spec_bytes()))
            &&& f.float_pixel_format <==> exts.contains("GLX_ARB_fbconfig_float".spec_bytes())
            &&& f.srgb_framebuffers <==> (exts.contains("GLX_ARB_framebuffer_sRGB".spec_bytes())
                || exts.contains("GLX_EXT_framebuffer_sRGB".spec_bytes()))
            &&& f.create_es_context <==> (exts.contains(
                "GLX_EXT_create_context_es2_profile".spec_bytes(),
            ) || exts.contains("GLX_EXT_create_context_es_profile".spec_bytes()))
            &&& f.swap_control <==> (exts.contains("GLX_EXT_swap_control".spec_bytes())
                || exts.contains("GLX_SGI_swap_control".spec_bytes()) || exts.contains(
                "GLX_MESA_swap_control".spec_bytes(),
            ))
            &&& f.context_robustness <==> exts.contains(
                "GLX_ARB_create_context_robustness".spec_bytes(),
            )
            &&& f.context_release_behavior <==> exts.contains(
                "GLX_ARB_context_flush_control".spec_bytes(),
            )
            &&& f.context_no_error <==> exts.contains("GLX_ARB_create_context_no_error".spec_bytes())
        }),
{
}

/// The surface kinds a GLX config reports are exactly those its `GLX_DRAWABLE_TYPE` bits say:
/// windows (bit 1) for `GLX_WINDOW_BIT`, pixmaps (bit 2) for `GLX_PIXMAP_BIT`, pbuffers (bit 4)
/// for `GLX_PBUFFER_BIT`, and nothing else.
pub proof fn lemma_glx_surface_bits(drawable_type: i32)
    ensures
        spec_surface_bits(drawable_type) & 1u8 != 0 <==> drawable_type & glx::WINDOW_BIT != 0,
        spec_surface_bits(drawable_type) & 2u8 != 0 <==> drawable_type & glx::PIXMAP_BIT != 0,
        spec_surface_bits(drawable_type) & 4u8 != 0 <==> drawable_type & glx::PBUFFER_BIT != 0,
        spec_surface_bits(drawable_type) < 8,
{
    lemma_surface_kind_bits(
        drawable_type & glx::WINDOW_BIT != 0,
        drawable_type & glx::PIXMAP_BIT != 0,
        drawable_type & glx::PBUFFER_BIT != 0,
    );
}

/// The drawable type a template asks `glXChooseFBConfig` for has `GLX_WINDOW_BIT` exactly for
/// windows, `GLX_PIXMAP_BIT` exactly for pixmaps and `GLX_PBUFFER_BIT` exactly for pbuffers;
/// read back, it gives the template's surface kinds.
pub proof fn lemma_glx_drawable_bits_round_trip(types: ConfigSurfaceTypes)
    requires
        types.bits < 8,
    ensures
        drawable_bits(types) & glx::WINDOW_BIT != 0 <==> types.bits & 1 == 1,
        drawable_bits(types) & glx::PIXMAP_BIT != 0 <==> types.bits & 2 == 2,
        drawable_bits(types) & glx::PBUFFER_BIT != 0 <==> types.bits & 4 == 4,
        spec_surface_bits(drawable_bits(types)) == types.bits,
{
    let b = types.bits;
    let m = drawable_bits(types);
    assert(m == (if b & 1 == 1 { 1i32 } else { 0i32 }) | (if b & 4 == 4 { 4i32 } else { 0i32 }) | (
    if b & 2 == 2 { 2i32 } else { 0i32 }));
    let s = spec_surface_bits(m);
    assert(s == (if m & 1 != 0 { 1u8 } else { 0u8 }) | (if m & 4 != 0 { 4u8 } else { 0u8 }) | (
    if m & 2 != 0 { 2u8 } else { 0u8 }));
    assert((m & 1 != 0 <==> b & 1 == 1) && (m & 2 != 0 <==> b & 2 == 2) && (m & 4 != 0 <==> b & 4
        == 4) && s == b) by (bit_vector)
        requires
            b < 8,
            m == (if b & 1 == 1 { 1i32 } else { 0i32 }) | (if b & 4 == 4 { 4i32 } else { 0i32 }) | (
            if b & 2 == 2 { 2i32 } else { 0i32 }),
            s == (if m & 1 != 0 { 1u8 } else { 0u8 }) | (if m & 4 != 0 { 4u8 } else { 0u8 }) | (
            if m & 2 != 0 { 2u8 } else { 0u8 }),
    ;
}

/// An OpenGL context (or one with no Api asked for) is made with the profile mask of the
/// profile picked, core or compatibility, at the version picked with it; an OpenGL ES context
/// asks for the ES2 profile, at the version asked for or 2.0, and only where the display can
/// create ES contexts.
pub proof fn lemma_glx_profile_version(
    api: Option<ContextApi>,
    opengl_profile: (GlProfile, Version),
    supports_es: bool,
)
    ensures
        match api {
            None | Some(ContextApi::OpenGl(_)) => spec_profile_version(
                api,
                opengl_profile,
                supports_es,
            ) == Some(
                (
                    match opengl_profile.0 {
                        GlProfile::Core => glx::CONTEXT_CORE_PROFILE_BIT_ARB,
                        GlProfile::Compatibility => glx::CONTEXT_COMPATIBILITY_PROFILE_BIT_ARB,
                    },
                    opengl_profile.1,
                ),
            ),
            Some(ContextApi::Gles(v)) => spec_profile_version(api, opengl_profile, supports_es) == (
            if supports_es {
                Some(
                    (
                        glx::CONTEXT_ES2_PROFILE_BIT_EXT,
                        match v {
                            Some(v) => v,
                            None => Version { major: 2, minor: 0 },
                        },
                    ),
                )
            } else {
                None
            }),
        },
{
}

/// The context list `glXCreateContextAttribsARB` gets asks first for the profile mask given and
/// for the version given.
pub proof fn lemma_glx_arb_profile_and_version(
    profile: i32,
    version: Version,
    a: ContextAttributes,
    f: DisplayFeatures,
)
    ensures
        attribute_value(spec_arb_attributes(profile, version, a, f), glx::CONTEXT_PROFILE_MASK_ARB)
            == Some(profile),
        attribute_value(spec_arb_attributes(profile, version, a, f), glx::CONTEXT_MAJOR_VERSION_ARB)
            == Some(version.major as i32),
        attribute_value(spec_arb_attributes(profile, version, a, f), glx::CONTEXT_MINOR_VERSION_ARB)
            == Some(version.minor as i32),
{
    let l = spec_arb_attributes(profile, version, a, f);
    let p = seq![glx::CONTEXT_PROFILE_MASK_ARB, profile];
    let ma = seq![glx::CONTEXT_MAJOR_VERSION_ARB, version.major as i32];
    let mi = seq![glx::CONTEXT_MINOR_VERSION_ARB, version.minor as i32];
    let rest = l.subrange(6, l.len() as int);
    assert(l =~= p + (ma + (mi + rest)));
    let names = seq![
        glx::CONTEXT_PROFILE_MASK_ARB,
        glx::CONTEXT_MAJOR_VERSION_ARB,
        glx::CONTEXT_MINOR_VERSION_ARB,
    ];
    assert forall|i: int| 0 <= i < 3 implies attribute_value(l, #[trigger] names[i]) == (if i == 0 {
        Some(profile)
    } else if i == 1 {
        Some(version.major as i32)
    } else {
        Some(version.minor as i32)
    }) by {
        let k = names[i];
        lemma_attribute_value_pair(glx::CONTEXT_PROFILE_MASK_ARB, profile, k);
        lemma_attribute_value_pair(glx::CONTEXT_MAJOR_VERSION_ARB, version.major as i32, k);
        lemma_attribute_value_pair(glx::CONTEXT_MINOR_VERSION_ARB, version.minor as i32, k);
        lemma_attribute_value_concat(p, ma + (mi + rest), k);
        lemma_attribute_value_concat(ma, mi + rest, k);
        lemma_attribute_value_concat(mi, rest, k);
    }
    assert(names[0] == glx::CONTEXT_PROFILE_MASK_ARB);
    assert(names[1] == glx::CONTEXT_MAJOR_VERSION_ARB);
    assert(names[2] == glx::CONTEXT_MINOR_VERSION_ARB);
}

/// A GLX pbuffer asks for the width and height it is made with, and for the largest pbuffer
/// available exactly when that is asked for.
pub proof fn lemma_glx_pbuffer_attributes(width: u32, height: u32, largest_pbuffer: bool)
    ensures
        attribute_value(pbuffer_attribute_list(width, height, largest_pbuffer), glx::PBUFFER_WIDTH)
            == Some(width as i32),
        attribute_value(pbuffer_attribute_list(width, height, largest_pbuffer), glx::PBUFFER_HEIGHT)
            == Some(height as i32),
        attribute_value(pbuffer_attribute_list(width, height, largest_pbuffer), glx::LARGEST_PBUFFER)
            == Some(if largest_pbuffer { 1i32 } else { 0i32 }),
{
    let l = pbuffer_attribute_list(width, height, largest_pbuffer);
    let w = seq![glx::PBUFFER_WIDTH, width as i32];
    let h = seq![glx::PBUFFER_HEIGHT, height as i32];
    let g = seq![glx::LARGEST_PBUFFER, if largest_pbuffer { 1i32 } else { 0i32 }];
    let z = seq![0i32];
    assert(l =~= w + (h + (g + z)));
    let names = seq![glx::PBUFFER_WIDTH, glx::PBUFFER_HEIGHT, glx::LARGEST_PBUFFER];
    assert forall|i: int| 0 <= i < 3 implies attribute_value(l, #[trigger] names[i]) == (if i == 0 {
        Some(width as i32)
    } else if i == 1 {
        Some(height as i32)
    } else {
        Some(if largest_pbuffer { 1i32 } else { 0i32 })
    }) by {
        let k = names[i];
        lemma_attribute_value_pair(glx::PBUFFER_WIDTH, width as i32, k);
        lemma_attribute_value_pair(glx::PBUFFER_HEIGHT, height as i32, k);
        lemma_attribute_value_pair(glx::LARGEST_PBUFFER, if largest_pbuffer { 1i32 } else { 0i32 }, k);
        crate::attributes::lemma_attribute_value_short(z, k);
        lemma_attribute_value_concat(g, z, k);
        lemma_attribute_value_concat(h, g + z, k);
        lemma_attribute_value_concat(w, h + (g + z), k);
    }
    assert(names[0] == glx::PBUFFER_WIDTH && names[1] == glx::PBUFFER_HEIGHT && names[2]
        == glx::LARGEST_PBUFFER);
}

/// The position of a swap control extension in the order the extensions are tried.
pub open spec fn swap_rank(m: SwapMethod) -> int {
    match m {
        SwapMethod::Ext => 0,
        SwapMethod::Mesa => 1,
        SwapMethod::Sgi => 2,
    }
}

/// The swap control extensions tried are exactly those the display lists: `glXSwapIntervalEXT`
/// with `GLX_EXT_swap_control`, `glXSwapIntervalMESA` with `GLX_MESA_swap_control`,
/// `glXSwapIntervalSGI` with `GLX_SGI_swap_control`; each is tried once, EXT before MESA before
/// SGI.
pub proof fn lemma_glx_swap_methods(exts: Set<Seq<u8>>)
    ensures
        spec_swap_methods(exts).contains(SwapMethod::Ext) <==> exts.contains(
            "GLX_EXT_swap_control".spec_bytes(),
        ),
        spec_swap_methods(exts).contains(SwapMethod::Mesa) <==> exts.contains(
            "GLX_MESA_swap_control".spec_bytes(),
        ),
        spec_swap_methods(exts).contains(SwapMethod::Sgi) <==> exts.contains(
            "GLX_SGI_swap_control".spec_bytes(),
        ),
        forall|i: int, j: int|
            0 <= i < j < spec_swap_methods(exts).len() ==> swap_rank(
                #[trigger] spec_swap_methods(exts)[i],
            ) < swap_rank(#[trigger] spec_swap_methods(exts)[j]),
{
    broadcast use vstd::seq_lib::lemma_seq_concat_contains_all_elements;

    let e = if exts.contains("GLX_EXT_swap_control".spec_bytes()) {
        seq![SwapMethod::Ext]
    } else {
        seq![]
    };
    let m = if exts.contains("GLX_MESA_swap_control".spec_bytes()) {
        seq![SwapMethod::Mesa]
    } else {
        seq![]
    };
    let g = if exts.contains("GLX_SGI_swap_control".spec_bytes()) {
        seq![SwapMethod::Sgi]
    } else {
        seq![]
    };
    let l = spec_swap_methods(exts);
    assert(l == e + m + g);
    assert forall|x: SwapMethod| #[trigger] e.contains(x) <==> (x == SwapMethod::Ext && e.len() == 1) by {
        if e.contains(x) {
            let k = choose|k: int| 0 <= k < e.len() && e[k] == x;
        }
        if x == SwapMethod::Ext && e.len() == 1 {
            assert(e[0] == x);
        }
    }
    assert forall|x: SwapMethod| #[trigger] m.contains(x) <==> (x == SwapMethod::Mesa && m.len() == 1) by {
        if m.contains(x) {
            let k = choose|k: int| 0 <= k < m.len() && m[k] == x;
        }
        if x == SwapMethod::Mesa && m.len() == 1 {
            assert(m[0] == x);
        }
    }
    assert forall|x: SwapMethod| #[trigger] g.contains(x) <==> (x == SwapMethod::Sgi && g.len() == 1) by {
        if g.contains(x) {
            let k = choose|k: int| 0 <= k < g.len() && g[k] == x;
        }
        if x == SwapMethod::Sgi && g.len() == 1 {
            assert(g[0] == x);
        }
    }
    assert forall|i: int| 0 <= i < l.len() implies swap_rank(#[trigger] l[i]) == (if i < e.len() {
        0int
    } else if i < e.len() + m.len() {
        1int
    } else {
        2int
    }) by {
        if i < e.len() {
            assert(l[i] == e[i]);
        } else if i < e.len() + m.len() {
            assert(l[i] == m[i - e.len()]);
        } else {
            assert(l[i] == g[i - e.len() - m.len()]);
        }
    }
}

} // verus!
