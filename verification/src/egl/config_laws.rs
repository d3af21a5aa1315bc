//! What the attribute list `eglChooseConfig` gets asks of a config, attribute by attribute.
use vstd::prelude::*;

use super::config::{
    color_attributes, config_attribute_list, config_caveat_swap, config_head,
    config_samples_api_pbuffer, opt_pair_u16, opt_pair_u32, pair, renderable_type_mask,
    surface_type_mask,
};
use super::consts as egl;
use crate::attributes::{
    attribute_value, lemma_attribute_value_absent, lemma_attribute_value_concat,
    lemma_attribute_value_pair, lemma_attribute_value_short, lemma_optional_pair, optional_pair,
};
use crate::config::{ColorBufferType, ConfigTemplate};

verus! {

/// The names the laws below speak of.
spec fn asked_name(k: i32) -> bool {
    k == egl::ALPHA_SIZE || k == egl::DEPTH_SIZE || k == egl::STENCIL_SIZE || k == egl::SURFACE_TYPE
        || k == egl::CONFIG_CAVEAT || k == egl::RENDERABLE_TYPE || k == egl::SAMPLES
}

proof fn lemma_color_names(c: ColorBufferType, k: i32)
    requires
        asked_name(k),
    ensures
        attribute_value(color_attributes(c), k) is None,
        color_attributes(c).len() % 2 == 0,
{
    let l = color_attributes(c);
    assert(l.len() == 8 || l.len() == 4);
    assert forall|i: int| 0 <= i < l.len() - 1 && i % 2 == 0 implies l[i] != k by {
        match c {
            ColorBufferType::Rgb { .. } => {
                assert(i == 0 || i == 2 || i == 4 || i == 6);
            },
            ColorBufferType::Luminance(_) => {
                assert(i == 0 || i == 2);
            },
        }
    }
    lemma_attribute_value_absent(l, k);
}

proof fn lemma_head_value(t: ConfigTemplate, k: i32)
    requires
        asked_name(k),
    ensures
        config_head(t).len() % 2 == 0,
        attribute_value(config_head(t), k) == (if k == egl::ALPHA_SIZE {
            Some(t.alpha_size as i32)
        } else if k == egl::DEPTH_SIZE {
            Some(t.depth_size as i32)
        } else if k == egl::STENCIL_SIZE {
            Some(t.stencil_size as i32)
        } else if k == egl::SURFACE_TYPE {
            Some(surface_type_mask(t.config_surface_types))
        } else {
            None
        }),
{
    let c = color_attributes(t.color_buffer_type);
    let f = optional_pair(
        t.float_pixels,
        egl::COLOR_COMPONENT_TYPE_EXT,
        egl::COLOR_COMPONENT_TYPE_FLOAT_EXT,
    );
    let a = pair(egl::ALPHA_SIZE, t.alpha_size as i32);
    let d = pair(egl::DEPTH_SIZE, t.depth_size as i32);
    let s = pair(egl::STENCIL_SIZE, t.stencil_size as i32);
    let st = pair(egl::SURFACE_TYPE, surface_type_mask(t.config_surface_types));
    assert(config_head(t) =~= c + f + a + d + s + st);
    lemma_color_names(t.color_buffer_type, k);
    lemma_optional_pair(
        t.float_pixels,
        egl::COLOR_COMPONENT_TYPE_EXT,
        egl::COLOR_COMPONENT_TYPE_FLOAT_EXT,
        k,
    );
    lemma_attribute_value_pair(egl::ALPHA_SIZE, t.alpha_size as i32, k);
    lemma_attribute_value_pair(egl::DEPTH_SIZE, t.depth_size as i32, k);
    lemma_attribute_value_pair(egl::STENCIL_SIZE, t.stencil_size as i32, k);
    lemma_attribute_value_pair(egl::SURFACE_TYPE, surface_type_mask(t.config_surface_types), k);
    lemma_attribute_value_concat(c, f, k);
    lemma_attribute_value_concat(c + f, a, k);
    lemma_attribute_value_concat(c + f + a, d, k);
    lemma_attribute_value_concat(c + f + a + d, s, k);
    lemma_attribute_value_concat(c + f + a + d + s, st, k);
}

proof fn lemma_opt_u16(name: i32, value: Option<u16>, k: i32)
    ensures
        opt_pair_u16(name, value) == optional_pair(value is Some, name, value->0 as i32),
        opt_pair_u16(name, value).len() % 2 == 0,
        attribute_value(opt_pair_u16(name, value), k) == (if value is Some && name == k {
            Some(value->0 as i32)
        } else {
            None
        }),
{
    lemma_optional_pair(value is Some, name, value->0 as i32, k);
}

proof fn lemma_opt_u32(name: i32, value: Option<u32>, k: i32)
    ensures
        opt_pair_u32(name, value) == optional_pair(value is Some, name, value->0 as i32),
        opt_pair_u32(name, value).len() % 2 == 0,
        attribute_value(opt_pair_u32(name, value), k) == (if value is Some && name == k {
            Some(value->0 as i32)
        } else {
            None
        }),
{
    lemma_optional_pair(value is Some, name, value->0 as i32, k);
}

proof fn lemma_caveat_swap_value(t: ConfigTemplate, k: i32)
    requires
        asked_name(k),
    ensures
        config_caveat_swap(t).len() % 2 == 0,
        attribute_value(config_caveat_swap(t), k) == (if k == egl::CONFIG_CAVEAT {
            match t.hardware_accelerated {
                Some(true) => Some(egl::NONE),
                Some(false) => Some(egl::SLOW_CONFIG),
                None => None,
            }
        } else {
            None
        }),
{
    let cav = optional_pair(
        t.hardware_accelerated is Some,
        egl::CONFIG_CAVEAT,
        if t.hardware_accelerated == Some(true) {
            egl::NONE
        } else {
            egl::SLOW_CONFIG
        },
    );
    let mn = opt_pair_u16(egl::MIN_SWAP_INTERVAL, t.min_swap_interval);
    let mx = opt_pair_u16(egl::MAX_SWAP_INTERVAL, t.max_swap_interval);
    assert(config_caveat_swap(t) =~= cav + mn + mx);
    lemma_optional_pair(
        t.hardware_accelerated is Some,
        egl::CONFIG_CAVEAT,
        if t.hardware_accelerated == Some(true) {
            egl::NONE
        } else {
            egl::SLOW_CONFIG
        },
        k,
    );
    lemma_opt_u16(egl::MIN_SWAP_INTERVAL, t.min_swap_interval, k);
    lemma_opt_u16(egl::MAX_SWAP_INTERVAL, t.max_swap_interval, k);
    lemma_attribute_value_concat(cav, mn, k);
    lemma_attribute_value_concat(cav + mn, mx, k);
}

proof fn lemma_samples_api_value(t: ConfigTemplate, k: i32)
    requires
        asked_name(k),
    ensures
        config_samples_api_pbuffer(t).len() % 2 == 0,
        attribute_value(config_samples_api_pbuffer(t), k) == (if k == egl::SAMPLES {
            match t.num_samples {
                Some(n) => Some(n as i32),
                None => None,
            }
        } else if k == egl::RENDERABLE_TYPE {
            match t.api {
                Some(a) => Some(renderable_type_mask(a)),
                None => None,
            }
        } else {
            None
        }),
{
    let sb = optional_pair(t.num_samples is Some, egl::SAMPLE_BUFFERS, 1i32);
    let sn = optional_pair(t.num_samples is Some, egl::SAMPLES, t.num_samples->0 as i32);
    let ap = optional_pair(t.api is Some, egl::RENDERABLE_TYPE, renderable_type_mask(t.api->0));
    let w = opt_pair_u32(egl::MAX_PBUFFER_WIDTH, t.max_pbuffer_width);
    let h = opt_pair_u32(egl::MAX_PBUFFER_HEIGHT, t.max_pbuffer_height);
    assert(config_samples_api_pbuffer(t) =~= sb + sn + ap + w + h);
    lemma_optional_pair(t.num_samples is Some, egl::SAMPLE_BUFFERS, 1i32, k);
    lemma_optional_pair(t.num_samples is Some, egl::SAMPLES, t.num_samples->0 as i32, k);
    lemma_optional_pair(t.api is Some, egl::RENDERABLE_TYPE, renderable_type_mask(t.api->0), k);
    lemma_opt_u32(egl::MAX_PBUFFER_WIDTH, t.max_pbuffer_width, k);
    lemma_opt_u32(egl::MAX_PBUFFER_HEIGHT, t.max_pbuffer_height, k);
    lemma_attribute_value_concat(sb, sn, k);
    lemma_attribute_value_concat(sb + sn, ap, k);
    lemma_attribute_value_concat(sb + sn + ap, w, k);
    lemma_attribute_value_concat(sb + sn + ap + w, h, k);
}

/// The value the config list gives one of the names above.
spec fn asked_value(t: ConfigTemplate, k: i32) -> Option<i32> {
    if k == egl::ALPHA_SIZE {
        Some(t.alpha_size as i32)
    } else if k == egl::DEPTH_SIZE {
        Some(t.depth_size as i32)
    } else if k == egl::STENCIL_SIZE {
        Some(t.stencil_size as i32)
    } else if k == egl::SURFACE_TYPE {
        Some(surface_type_mask(t.config_surface_types))
    } else if k == egl::CONFIG_CAVEAT {
        match t.hardware_accelerated {
            Some(true) => Some(egl::NONE),
            Some(false) => Some(egl::SLOW_CONFIG),
            None => None,
        }
    } else if k == egl::SAMPLES {
        match t.num_samples {
            Some(n) => Some(n as i32),
            None => None,
        }
    } else {
        match t.api {
            Some(a) => Some(renderable_type_mask(a)),
            None => None,
        }
    }
}

proof fn lemma_config_value(t: ConfigTemplate, k: i32)
    requires
        asked_name(k),
    ensures
        attribute_value(config_attribute_list(t), k) == asked_value(t, k),
{
    let h = config_head(t);
    let cs = config_caveat_swap(t);
    let sap = config_samples_api_pbuffer(t);
    lemma_head_value(t, k);
    lemma_caveat_swap_value(t, k);
    lemma_samples_api_value(t, k);
    lemma_attribute_value_short(seq![egl::NONE], k);
    assert(config_attribute_list(t) =~= h + (cs + (sap + seq![egl::NONE])));
    lemma_attribute_value_concat(sap, seq![egl::NONE], k);
    lemma_attribute_value_concat(cs, sap + seq![egl::NONE], k);
    lemma_attribute_value_concat(h, cs + (sap + seq![egl::NONE]), k);
}

/// `eglChooseConfig` is asked for the alpha, depth and stencil sizes the template gives, and
/// for configs of the surface kinds it asks for.
pub proof fn lemma_config_sizes_and_surfaces(t: ConfigTemplate)
    ensures
        attribute_value(config_attribute_list(t), egl::ALPHA_SIZE) == Some(t.alpha_size as i32),
        attribute_value(config_attribute_list(t), egl::DEPTH_SIZE) == Some(t.depth_size as i32),
        attribute_value(config_attribute_list(t), egl::STENCIL_SIZE) == Some(t.stencil_size as i32),
        attribute_value(config_attribute_list(t), egl::SURFACE_TYPE) == Some(
            surface_type_mask(t.config_surface_types),
        ),
{
    lemma_config_value(t, egl::ALPHA_SIZE);
    lemma_config_value(t, egl::DEPTH_SIZE);
    lemma_config_value(t, egl::STENCIL_SIZE);
    lemma_config_value(t, egl::SURFACE_TYPE);
}

/// Asking for hardware acceleration asks for configs without a caveat (`EGL_NONE`), asking
/// against it asks for slow configs, and no preference leaves the caveat out.
pub proof fn lemma_config_caveat(t: ConfigTemplate)
    ensures
        attribute_value(config_attribute_list(t), egl::CONFIG_CAVEAT) == (match t.hardware_accelerated {
            Some(true) => Some(egl::NONE),
            Some(false) => Some(egl::SLOW_CONFIG),
            None => None::<i32>,
        }),
{
    lemma_config_value(t, egl::CONFIG_CAVEAT);
}

/// The number of samples asked for is the template's, and the Apis asked for are the
/// `EGL_RENDERABLE_TYPE` mask of the template's Apis; neither is asked about when the template
/// leaves it open.
pub proof fn lemma_config_samples_and_apis(t: ConfigTemplate)
    ensures
        attribute_value(config_attribute_list(t), egl::SAMPLES) == (match t.num_samples {
            Some(n) => Some(n as i32),
            None => None::<i32>,
        }),
        attribute_value(config_attribute_list(t), egl::RENDERABLE_TYPE) == (match t.api {
            Some(a) => Some(renderable_type_mask(a)),
            None => None::<i32>,
        }),
{
    lemma_config_value(t, egl::SAMPLES);
    lemma_config_value(t, egl::RENDERABLE_TYPE);
}

} // verus!
