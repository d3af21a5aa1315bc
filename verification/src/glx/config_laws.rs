//! What the attribute list `glXChooseFBConfig` gets asks of a config, attribute by attribute.
use vstd::prelude::*;

use super::config::{
    caveat_part, color_part, drawable_bits, opt_pair, pair, render_type, sizes_part,
    spec_config_attributes, tail_part, visual_part,
};
use super::consts as glx;
use crate::attributes::{
    attribute_value, lemma_attribute_value_absent, lemma_attribute_value_concat,
    lemma_attribute_value_pair, lemma_attribute_value_short, lemma_optional_pair, optional_pair,
};
use crate::config::{ColorBufferType, ConfigTemplate, DisplayFeatures, NativeWindowHandle};

verus! {

/// The names the laws below speak of.
spec fn asked_name(k: i32) -> bool {
    k == glx::RENDER_TYPE || k == glx::CONFIG_CAVEAT || k == glx::DOUBLEBUFFER || k
        == glx::ALPHA_SIZE || k == glx::DEPTH_SIZE || k == glx::STENCIL_SIZE || k
        == glx::DRAWABLE_TYPE || k == glx::STEREO || k == glx::SAMPLES
}

/// The value the config list gives each of the names above.
spec fn asked_value(t: ConfigTemplate, f: DisplayFeatures, k: i32) -> Option<i32> {
    if k == glx::RENDER_TYPE {
        Some(render_type(t, f)->0)
    } else if k == glx::CONFIG_CAVEAT {
        match t.hardware_accelerated {
            Some(true) => Some(glx::NONE),
            Some(false) => Some(glx::SLOW_CONFIG),
            None => None,
        }
    } else if k == glx::DOUBLEBUFFER {
        Some(if t.single_buffering { 0i32 } else { 1i32 })
    } else if k == glx::ALPHA_SIZE {
        Some(t.alpha_size as i32)
    } else if k == glx::DEPTH_SIZE {
        Some(t.depth_size as i32)
    } else if k == glx::STENCIL_SIZE {
        Some(t.stencil_size as i32)
    } else if k == glx::DRAWABLE_TYPE {
        Some(drawable_bits(t.config_surface_types))
    } else if k == glx::STEREO {
        match t.stereoscopy {
            Some(s) => Some(if s { 1i32 } else { 0i32 }),
            None => None,
        }
    } else {
        match t.num_samples {
            Some(n) => if f.multisampling_pixel_formats {
                Some(n as i32)
            } else {
                None
            },
            None => None,
        }
    }
}

proof fn lemma_front_value(t: ConfigTemplate, f: DisplayFeatures, k: i32)
    requires
        asked_name(k),
    ensures
        ({
            let front = color_part(t.color_buffer_type) + pair(glx::RENDER_TYPE, render_type(t, f)->0)
                + caveat_part(t.hardware_accelerated) + sizes_part(t);
            &&& front.len() % 2 == 0
            &&& attribute_value(front, k) == (if k == glx::RENDER_TYPE || k == glx::CONFIG_CAVEAT
                || k == glx::DOUBLEBUFFER || k == glx::ALPHA_SIZE || k == glx::DEPTH_SIZE || k
                == glx::STENCIL_SIZE {
                asked_value(t, f, k)
            } else {
                None
            })
        }),
{
    let c = color_part(t.color_buffer_type);
    assert(c.len() == 8 || c.len() == 4);
    assert forall|i: int| 0 <= i < c.len() - 1 && i % 2 == 0 implies c[i] != k by {
        match t.color_buffer_type {
            ColorBufferType::Rgb { .. } => {
                assert(i == 0 || i == 2 || i == 4 || i == 6);
            },
            ColorBufferType::Luminance(_) => {
                assert(i == 0 || i == 2);
            },
        }
    }
    lemma_attribute_value_absent(c, k);
    let rt = pair(glx::RENDER_TYPE, render_type(t, f)->0);
    lemma_attribute_value_pair(glx::RENDER_TYPE, render_type(t, f)->0, k);
    let cv = caveat_part(t.hardware_accelerated);
    assert(cv == optional_pair(
        t.hardware_accelerated is Some,
        glx::CONFIG_CAVEAT,
        if t.hardware_accelerated == Some(true) {
            glx::NONE
        } else {
            glx::SLOW_CONFIG
        },
    ));
    lemma_optional_pair(
        t.hardware_accelerated is Some,
        glx::CONFIG_CAVEAT,
        if t.hardware_accelerated == Some(true) {
            glx::NONE
        } else {
            glx::SLOW_CONFIG
        },
        k,
    );
    let db = pair(glx::DOUBLEBUFFER, if t.single_buffering { 0i32 } else { 1i32 });
    let a = pair(glx::ALPHA_SIZE, t.alpha_size as i32);
    let d = pair(glx::DEPTH_SIZE, t.depth_size as i32);
    let s = pair(glx::STENCIL_SIZE, t.stencil_size as i32);
    assert(sizes_part(t) =~= db + a + d + s);
    lemma_attribute_value_pair(glx::DOUBLEBUFFER, if t.single_buffering { 0i32 } else { 1i32 }, k);
    lemma_attribute_value_pair(glx::ALPHA_SIZE, t.alpha_size as i32, k);
    lemma_attribute_value_pair(glx::DEPTH_SIZE, t.depth_size as i32, k);
    lemma_attribute_value_pair(glx::STENCIL_SIZE, t.stencil_size as i32, k);
    lemma_attribute_value_concat(db, a, k);
    lemma_attribute_value_concat(db + a, d, k);
    lemma_attribute_value_concat(db + a + d, s, k);
    lemma_attribute_value_concat(c, rt, k);
    lemma_attribute_value_concat(c + rt, cv, k);
    lemma_attribute_value_concat(c + rt + cv, sizes_part(t), k);
}

proof fn lemma_opt_pair(name: i32, value: Option<u32>, k: i32)
    ensures
        opt_pair(name, value) == optional_pair(value is Some, name, value->0 as i32),
        opt_pair(name, value).len() % 2 == 0,
        attribute_value(opt_pair(name, value), k) == (if value is Some && name == k {
            Some(value->0 as i32)
        } else {
            None
        }),
{
    lemma_optional_pair(value is Some, name, value->0 as i32, k);
}

proof fn lemma_back_value(t: ConfigTemplate, f: DisplayFeatures, k: i32)
    requires
        asked_name(k),
    ensures
        ({
            let back = visual_part(t.native_window) + pair(
                glx::DRAWABLE_TYPE,
                drawable_bits(t.config_surface_types),
            ) + tail_part(t, f) + seq![0i32];
            attribute_value(back, k) == (if k == glx::DRAWABLE_TYPE || k == glx::STEREO || k
                == glx::SAMPLES {
                asked_value(t, f, k)
            } else {
                None
            })
        }),
{
    let vp = visual_part(t.native_window);
    let has_visual = match t.native_window {
        Some(NativeWindowHandle::Xlib { visual_id, .. }) => visual_id > 0,
        _ => false,
    };
    let vid = match t.native_window {
        Some(NativeWindowHandle::Xlib { visual_id, .. }) => visual_id as i32,
        _ => 0i32,
    };
    assert(vp == optional_pair(has_visual, glx::VISUAL_ID, vid));
    lemma_optional_pair(has_visual, glx::VISUAL_ID, vid, k);
    let dt = pair(glx::DRAWABLE_TYPE, drawable_bits(t.config_surface_types));
    lemma_attribute_value_pair(glx::DRAWABLE_TYPE, drawable_bits(t.config_surface_types), k);
    let w = opt_pair(glx::MAX_PBUFFER_WIDTH, t.max_pbuffer_width);
    let h = opt_pair(glx::MAX_PBUFFER_HEIGHT, t.max_pbuffer_height);
    lemma_opt_pair(glx::MAX_PBUFFER_WIDTH, t.max_pbuffer_width, k);
    lemma_opt_pair(glx::MAX_PBUFFER_HEIGHT, t.max_pbuffer_height, k);
    let st = optional_pair(
        t.stereoscopy is Some,
        glx::STEREO,
        if t.stereoscopy == Some(true) {
            1i32
        } else {
            0i32
        },
    );
    lemma_optional_pair(
        t.stereoscopy is Some,
        glx::STEREO,
        if t.stereoscopy == Some(true) {
            1i32
        } else {
            0i32
        },
        k,
    );
    let sampled = t.num_samples is Some && f.multisampling_pixel_formats;
    let sb = optional_pair(sampled, glx::SAMPLE_BUFFERS, 1i32);
    let sn = optional_pair(sampled, glx::SAMPLES, t.num_samples->0 as i32);
    lemma_optional_pair(sampled, glx::SAMPLE_BUFFERS, 1i32, k);
    lemma_optional_pair(sampled, glx::SAMPLES, t.num_samples->0 as i32, k);
    assert(tail_part(t, f) =~= w + h + st + (sb + sn));
    lemma_attribute_value_concat(sb, sn, k);
    lemma_attribute_value_concat(w, h, k);
    lemma_attribute_value_concat(w + h, st, k);
    lemma_attribute_value_concat(w + h + st, sb + sn, k);
    let z = seq![0i32];
    lemma_attribute_value_short(z, k);
    lemma_attribute_value_concat(vp, dt, k);
    lemma_attribute_value_concat(vp + dt, tail_part(t, f), k);
    lemma_attribute_value_concat(vp + dt + tail_part(t, f), z, k);
}

proof fn lemma_config_value(t: ConfigTemplate, f: DisplayFeatures, k: i32)
    requires
        asked_name(k),
    ensures
        attribute_value(spec_config_attributes(t, f), k) == asked_value(t, f, k),
{
    let front = color_part(t.color_buffer_type) + pair(glx::RENDER_TYPE, render_type(t, f)->0)
        + caveat_part(t.hardware_accelerated) + sizes_part(t);
    let back = visual_part(t.native_window) + pair(
        glx::DRAWABLE_TYPE,
        drawable_bits(t.config_surface_types),
    ) + tail_part(t, f) + seq![0i32];
    lemma_front_value(t, f, k);
    lemma_back_value(t, f, k);
    assert(spec_config_attributes(t, f) =~= front + back);
    lemma_attribute_value_concat(front, back, k);
}

/// `glXChooseFBConfig` is asked for the render type the template needs (float or fixed point
/// RGBA), for double buffering unless single buffering is asked for, for the template's alpha,
/// depth and stencil sizes, and for the drawable kinds it asks for.
pub proof fn lemma_glx_config_buffers(t: ConfigTemplate, f: DisplayFeatures)
    ensures
        attribute_value(spec_config_attributes(t, f), glx::RENDER_TYPE) == Some(
            if t.float_pixels && f.float_pixel_format {
                glx::RGBA_FLOAT_BIT_ARB
            } else {
                glx::RGBA_BIT
            },
        ) || (t.float_pixels && !f.float_pixel_format),
        attribute_value(spec_config_attributes(t, f), glx::DOUBLEBUFFER) == Some(
            if t.single_buffering {
                0i32
            } else {
                1i32
            },
        ),
        attribute_value(spec_config_attributes(t, f), glx::ALPHA_SIZE) == Some(t.alpha_size as i32),
        attribute_value(spec_config_attributes(t, f), glx::DEPTH_SIZE) == Some(t.depth_size as i32),
        attribute_value(spec_config_attributes(t, f), glx::STENCIL_SIZE) == Some(
            t.stencil_size as i32,
        ),
        attribute_value(spec_config_attributes(t, f), glx::DRAWABLE_TYPE) == Some(
            drawable_bits(t.config_surface_types),
        ),
{
    lemma_config_value(t, f, glx::RENDER_TYPE);
    lemma_config_value(t, f, glx::DOUBLEBUFFER);
    lemma_config_value(t, f, glx::ALPHA_SIZE);
    lemma_config_value(t, f, glx::DEPTH_SIZE);
    lemma_config_value(t, f, glx::STENCIL_SIZE);
    lemma_config_value(t, f, glx::DRAWABLE_TYPE);
}

/// Asking for hardware acceleration asks for configs without a caveat, asking against it asks
/// for slow configs; stereoscopy is asked for as the template says; the number of samples is
/// asked for only on a display with multisampled formats.
pub proof fn lemma_glx_config_caveat_stereo_samples(t: ConfigTemplate, f: DisplayFeatures)
    ensures
        attribute_value(spec_config_attributes(t, f), glx::CONFIG_CAVEAT) == (match t.hardware_accelerated {
            Some(true) => Some(glx::NONE),
            Some(false) => Some(glx::SLOW_CONFIG),
            None => None::<i32>,
        }),
        attribute_value(spec_config_attributes(t, f), glx::STEREO) == (match t.stereoscopy {
            Some(true) => Some(1i32),
            Some(false) => Some(0i32),
            None => None::<i32>,
        }),
        attribute_value(spec_config_attributes(t, f), glx::SAMPLES) == (match t.num_samples {
            Some(n) => if f.multisampling_pixel_formats {
                Some(n as i32)
            } else {
                None
            },
            None => None::<i32>,
        }),
{
    lemma_config_value(t, f, glx::CONFIG_CAVEAT);
    lemma_config_value(t, f, glx::STEREO);
    lemma_config_value(t, f, glx::SAMPLES);
}

} // verus!
