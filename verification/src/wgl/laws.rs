//! What the WGL attribute lists ask of the driver, attribute by attribute.
use vstd::prelude::*;
use vstd::string::StringSliceAdditionalSpecFns;

use super::config::{
    spec_wgl_surface_bits, WglConfig, arb_color_part, arb_pixel_type, arb_samples_part, arb_sizes_part, arb_tail_part,
    spec_arb_attributes,
};
use super::consts as wgl;
use super::surface::pbuffer_attribute_list;
use super::spec_display_features;
use crate::attributes::{
    attribute_value, lemma_attribute_value_absent, lemma_attribute_value_concat,
    lemma_attribute_value_short, lemma_optional_pair, optional_pair,
};
use crate::config::{lemma_surface_kind_bits, ConfigSurfaceTypes, ConfigTemplate, DisplayFeatures};

verus! {

/// The pairs of the ARB list before its tail: color, sizes, samples and pixel type.
spec fn arb_head(t: ConfigTemplate, f: DisplayFeatures, r: u8, g: u8, b: u8) -> Seq<i32> {
    arb_color_part(r, g, b) + arb_sizes_part(t) + arb_samples_part(t, f) + seq![
        wgl::PIXEL_TYPE_ARB,
        arb_pixel_type(t, f)->0,
    ]
}

proof fn lemma_head_has_no_tail_names(
    t: ConfigTemplate,
    f: DisplayFeatures,
    r: u8,
    g: u8,
    b: u8,
    k: i32,
)
    requires
        k == wgl::ACCELERATION_ARB || k == wgl::DRAW_TO_WINDOW_ARB || k == wgl::DRAW_TO_BITMAP_ARB
            || k == wgl::TRANSPARENT_ARB || k == wgl::STEREO_ARB,
    ensures
        attribute_value(arb_head(t, f, r, g, b), k) is None,
        arb_head(t, f, r, g, b).len() % 2 == 0,
{
    let c = arb_color_part(r, g, b);
    let sz = arb_sizes_part(t);
    let sm = arb_samples_part(t, f);
    let p = seq![wgl::PIXEL_TYPE_ARB, arb_pixel_type(t, f)->0];
    let h = arb_head(t, f, r, g, b);
    assert(c.len() == 6 && sz.len() == 10 && p.len() == 2);
    assert(sm.len() == 0 || sm.len() == 4);
    assert forall|i: int| 0 <= i < h.len() - 1 && i % 2 == 0 implies h[i] != k by {
        if i < 6 {
            assert(h[i] == c[i]);
        } else if i < 16 {
            assert(h[i] == sz[i - 6]);
        } else if i < 16 + sm.len() {
            assert(h[i] == sm[i - 16]);
        } else {
            assert(h[i] == p[i - 16 - sm.len()]);
        }
    }
    lemma_attribute_value_absent(h, k);
}

/// The tail of the ARB list as its five optional pairs.
proof fn lemma_tail_pairs(t: ConfigTemplate)
    ensures
        arb_tail_part(t) == optional_pair(
            t.stereoscopy is Some,
            wgl::STEREO_ARB,
            if t.stereoscopy == Some(true) {
                1i32
            } else {
                0i32
            },
        ) + optional_pair(
            t.hardware_accelerated is Some,
            wgl::ACCELERATION_ARB,
            if t.hardware_accelerated == Some(true) {
                wgl::FULL_ACCELERATION_ARB
            } else {
                wgl::NO_ACCELERATION_ARB
            },
        ) + optional_pair(
            t.config_surface_types.spec_contains(ConfigSurfaceTypes { bits: 1 }),
            wgl::DRAW_TO_WINDOW_ARB,
            1i32,
        ) + optional_pair(
            t.config_surface_types.spec_contains(ConfigSurfaceTypes { bits: 2 }),
            wgl::DRAW_TO_BITMAP_ARB,
            1i32,
        ) + optional_pair(t.transparency, wgl::TRANSPARENT_ARB, 1i32),
{
}

/// The value the tail of an ARB list gives each of its five names.
spec fn tail_value(t: ConfigTemplate, k: i32) -> Option<i32> {
    if k == wgl::STEREO_ARB {
        match t.stereoscopy {
            Some(s) => Some(if s { 1i32 } else { 0i32 }),
            None => None,
        }
    } else if k == wgl::ACCELERATION_ARB {
        match t.hardware_accelerated {
            Some(h) => Some(if h { wgl::FULL_ACCELERATION_ARB } else { wgl::NO_ACCELERATION_ARB }),
            None => None,
        }
    } else if k == wgl::DRAW_TO_WINDOW_ARB {
        if t.config_surface_types.spec_contains(ConfigSurfaceTypes { bits: 1 }) {
            Some(1i32)
        } else {
            None
        }
    } else if k == wgl::DRAW_TO_BITMAP_ARB {
        if t.config_surface_types.spec_contains(ConfigSurfaceTypes { bits: 2 }) {
            Some(1i32)
        } else {
            None
        }
    } else if t.transparency {
        Some(1i32)
    } else {
        None
    }
}

#[verifier::rlimit(30)]
proof fn lemma_tail_part_value(t: ConfigTemplate, k: i32)
    requires
        k == wgl::ACCELERATION_ARB || k == wgl::DRAW_TO_WINDOW_ARB || k == wgl::DRAW_TO_BITMAP_ARB
            || k == wgl::TRANSPARENT_ARB || k == wgl::STEREO_ARB,
    ensures
        attribute_value(arb_tail_part(t), k) == tail_value(t, k),
        arb_tail_part(t).len() % 2 == 0,
{
    lemma_tail_pairs(t);
    let st_on = t.stereoscopy is Some;
    let st_v = if t.stereoscopy == Some(true) { 1i32 } else { 0i32 };
    let ac_on = t.hardware_accelerated is Some;
    let ac_v = if t.hardware_accelerated == Some(true) {
        wgl::FULL_ACCELERATION_ARB
    } else {
        wgl::NO_ACCELERATION_ARB
    };
    let w_on = t.config_surface_types.spec_contains(ConfigSurfaceTypes { bits: 1 });
    let px_on = t.config_surface_types.spec_contains(ConfigSurfaceTypes { bits: 2 });
    let st = optional_pair(st_on, wgl::STEREO_ARB, st_v);
    let ac = optional_pair(ac_on, wgl::ACCELERATION_ARB, ac_v);
    let w = optional_pair(w_on, wgl::DRAW_TO_WINDOW_ARB, 1i32);
    let px = optional_pair(px_on, wgl::DRAW_TO_BITMAP_ARB, 1i32);
    let tr = optional_pair(t.transparency, wgl::TRANSPARENT_ARB, 1i32);
    lemma_optional_pair(st_on, wgl::STEREO_ARB, st_v, k);
    lemma_optional_pair(ac_on, wgl::ACCELERATION_ARB, ac_v, k);
    lemma_optional_pair(w_on, wgl::DRAW_TO_WINDOW_ARB, 1i32, k);
    lemma_optional_pair(px_on, wgl::DRAW_TO_BITMAP_ARB, 1i32, k);
    lemma_optional_pair(t.transparency, wgl::TRANSPARENT_ARB, 1i32, k);
    lemma_attribute_value_concat(st, ac, k);
    lemma_attribute_value_concat(st + ac, w, k);
    lemma_attribute_value_concat(st + ac + w, px, k);
    lemma_attribute_value_concat(st + ac + w + px, tr, k);
}

/// The value an ARB list gives one of its tail names is the value its tail gives it.
proof fn lemma_tail_value(t: ConfigTemplate, f: DisplayFeatures, r: u8, g: u8, b: u8, k: i32)
    requires
        k == wgl::ACCELERATION_ARB || k == wgl::DRAW_TO_WINDOW_ARB || k == wgl::DRAW_TO_BITMAP_ARB
            || k == wgl::TRANSPARENT_ARB || k == wgl::STEREO_ARB,
    ensures
        attribute_value(spec_arb_attributes(t, f, r, g, b), k) == tail_value(t, k),
{
    let h = arb_head(t, f, r, g, b);
    let tl = arb_tail_part(t);
    lemma_head_has_no_tail_names(t, f, r, g, b, k);
    lemma_tail_part_value(t, k);
    assert(spec_arb_attributes(t, f, r, g, b) =~= h + (tl + seq![0i32]));
    lemma_attribute_value_short(seq![0i32], k);
    lemma_attribute_value_concat(tl, seq![0i32], k);
    lemma_attribute_value_concat(h, tl + seq![0i32], k);
}

/// Asking for hardware acceleration asks `wglChoosePixelFormatARB` for fully accelerated
/// formats, asking against it asks for formats without acceleration, and no preference leaves
/// `WGL_ACCELERATION_ARB` out of the list.
pub proof fn lemma_arb_acceleration(t: ConfigTemplate, f: DisplayFeatures, r: u8, g: u8, b: u8)
    ensures
        attribute_value(spec_arb_attributes(t, f, r, g, b), wgl::ACCELERATION_ARB) == (match t.hardware_accelerated {
            Some(true) => Some(wgl::FULL_ACCELERATION_ARB),
            Some(false) => Some(wgl::NO_ACCELERATION_ARB),
            None => None::<i32>,
        }),
{
    lemma_tail_value(t, f, r, g, b, wgl::ACCELERATION_ARB);
}

/// A template asking for window surfaces asks for formats that draw to windows, one asking
/// for pixmaps asks for formats that draw to bitmaps, and neither is asked for otherwise.
pub proof fn lemma_arb_drawables(t: ConfigTemplate, f: DisplayFeatures, r: u8, g: u8, b: u8)
    ensures
        attribute_value(spec_arb_attributes(t, f, r, g, b), wgl::DRAW_TO_WINDOW_ARB) == (if t.config_surface_types.bits & 1 == 1 {
            Some(1i32)
        } else {
            None
        }),
        attribute_value(spec_arb_attributes(t, f, r, g, b), wgl::DRAW_TO_BITMAP_ARB) == (if t.config_surface_types.bits & 2 == 2 {
            Some(1i32)
        } else {
            None
        }),
{
    lemma_tail_value(t, f, r, g, b, wgl::DRAW_TO_WINDOW_ARB);
    lemma_tail_value(t, f, r, g, b, wgl::DRAW_TO_BITMAP_ARB);
}

/// A template asking for transparency asks for transparent formats; otherwise transparency
/// is not asked about. Stereoscopy is asked for as the template says, when it says anything.
pub proof fn lemma_arb_transparency_and_stereo(
    t: ConfigTemplate,
    f: DisplayFeatures,
    r: u8,
    g: u8,
    b: u8,
)
    ensures
        attribute_value(spec_arb_attributes(t, f, r, g, b), wgl::TRANSPARENT_ARB) == (if t.transparency {
            Some(1i32)
        } else {
            None
        }),
        attribute_value(spec_arb_attributes(t, f, r, g, b), wgl::STEREO_ARB) == (match t.stereoscopy {
            Some(true) => Some(1i32),
            Some(false) => Some(0i32),
            None => None::<i32>,
        }),
{
    lemma_tail_value(t, f, r, g, b, wgl::TRANSPARENT_ARB);
    lemma_tail_value(t, f, r, g, b, wgl::STEREO_ARB);
}

/// Each feature of a WGL display holds exactly when the display lists the extension that
/// provides it (one of several, where several do).
pub proof fn lemma_wgl_features_follow_extensions(exts: Set<Seq<u8>>)
    ensures
        ({
            let f = spec_display_features(exts);
            &&& f.multisampling_pixel_formats <==> exts.contains("WGL_ARB_multisample".spec_bytes())
            &&& f.float_pixel_format <==> exts.contains("WGL_ARB_pixel_format_float".spec_bytes())
            &&& f.srgb_framebuffers <==> (exts.contains("WGL_ARB_framebuffer_sRGB".spec_bytes())
                || exts.contains("WGL_EXT_framebuffer_sRGB".spec_bytes()) || exts.contains(
                "WGL_EXT_colorspace".spec_bytes(),
            ))
            &&& f.create_es_context <==> (exts.contains(
                "WGL_EXT_create_context_es2_profile".spec_bytes(),
            ) || exts.contains("WGL_EXT_create_context_es_profile".spec_bytes()))
            &&& f.swap_control <==> exts.contains("WGL_EXT_swap_control".spec_bytes())
            &&& f.context_robustness <==> exts.contains(
                "WGL_ARB_create_context_robustness".spec_bytes(),
            )
            &&& f.context_release_behavior <==> exts.contains(
                "WGL_ARB_context_flush_control".spec_bytes(),
            )
            &&& f.context_no_error <==> exts.contains("WGL_ARB_create_context_no_error".spec_bytes())
        }),
{
}

/// A WGL pixel format reports windows (bit 1) exactly when it draws to windows and pixmaps
/// (bit 2) exactly when it draws to bitmaps, read from its descriptor (`PFD_DRAW_TO_WINDOW`,
/// `PFD_DRAW_TO_BITMAP`) or through the ARB query (`WGL_DRAW_TO_WINDOW_ARB`,
/// `WGL_DRAW_TO_BITMAP_ARB`); it never reports pbuffers.
pub proof fn lemma_wgl_surface_bits(c: WglConfig)
    ensures
        match c.descriptor {
            Some(d) => {
                &&& (spec_wgl_surface_bits(c) & 1u8 != 0 <==> d.flags & wgl::PFD_DRAW_TO_WINDOW != 0)
                &&& (spec_wgl_surface_bits(c) & 2u8 != 0 <==> d.flags & wgl::PFD_DRAW_TO_BITMAP != 0)
            },
            None => {
                &&& (spec_wgl_surface_bits(c) & 1u8 != 0 <==> c.attributes.draw_to_window != 0)
                &&& (spec_wgl_surface_bits(c) & 2u8 != 0 <==> c.attributes.draw_to_bitmap != 0)
            },
        },
        spec_wgl_surface_bits(c) & 4u8 == 0,
{
    match c.descriptor {
        Some(d) => lemma_surface_kind_bits(
            d.flags & wgl::PFD_DRAW_TO_WINDOW != 0,
            d.flags & wgl::PFD_DRAW_TO_BITMAP != 0,
            false,
        ),
        None => lemma_surface_kind_bits(
            c.attributes.draw_to_window != 0,
            c.attributes.draw_to_bitmap != 0,
            false,
        ),
    }
}

/// A WGL pbuffer asks for the largest pbuffer available exactly when that is asked for, and
/// for nothing otherwise.
pub proof fn lemma_wgl_pbuffer_attributes(largest_pbuffer: bool)
    ensures
        attribute_value(pbuffer_attribute_list(largest_pbuffer), wgl::PBUFFER_LARGEST_ARB) == (
        if largest_pbuffer {
            Some(1i32)
        } else {
            None
        }),
{
    let k = wgl::PBUFFER_LARGEST_ARB;
    let z = seq![0i32];
    if largest_pbuffer {
        let p = seq![k, 1i32];
        assert(pbuffer_attribute_list(largest_pbuffer) =~= p + z);
        crate::attributes::lemma_attribute_value_pair(k, 1i32, k);
        lemma_attribute_value_short(z, k);
        lemma_attribute_value_concat(p, z, k);
    } else {
        let p = seq![0i32, 0i32];
        assert(pbuffer_attribute_list(largest_pbuffer) =~= p + z);
        crate::attributes::lemma_attribute_value_pair(0i32, 0i32, k);
        lemma_attribute_value_short(z, k);
        lemma_attribute_value_concat(p, z, k);
    }
}

} // verus!
