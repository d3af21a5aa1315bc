//! Finding and decoding `EGLConfig`s: the attribute list handed to `eglChooseConfig`, the
//! filters applied to what it returns, and the meaning of a config's attributes.
use vstd::prelude::*;

use super::consts as egl;
use crate::config::{
    Api, ColorBufferType, ConfigSurfaceTypes, ConfigTemplate, DisplayFeatures, GlConfig,
    NativeDisplayHandle, NativeWindowHandle,
};
use crate::error::{Error, ErrorKind};

verus! {

/// An attribute name followed by its value.
pub open spec fn pair(name: i32, value: i32) -> Seq<i32> {
    seq![name, value]
}

/// The attributes for an optional value: nothing when it is absent.
pub open spec fn opt_pair_u16(name: i32, value: Option<u16>) -> Seq<i32> {
    match value {
        Some(v) => pair(name, v as i32),
        None => Seq::empty(),
    }
}

/// The attributes for an optional value: nothing when it is absent.
pub open spec fn opt_pair_u32(name: i32, value: Option<u32>) -> Seq<i32> {
    match value {
        Some(v) => pair(name, v as i32),
        None => Seq::empty(),
    }
}

/// The `EGL_SURFACE_TYPE` mask for the surface types of a template.
pub open spec fn surface_type_mask(types: ConfigSurfaceTypes) -> i32 {
    (if types.spec_contains(ConfigSurfaceTypes { bits: 1 }) { egl::WINDOW_BIT } else { 0 }) | (
    if types.spec_contains(ConfigSurfaceTypes { bits: 4 }) { egl::PBUFFER_BIT } else { 0 }) | (
    if types.spec_contains(ConfigSurfaceTypes { bits: 2 }) { egl::PIXMAP_BIT } else { 0 })
}

/// The `EGL_RENDERABLE_TYPE` mask for a set of Apis.
pub open spec fn renderable_type_mask(api: Api) -> i32 {
    (if api.spec_contains(Api { bits: 2 }) { egl::OPENGL_ES_BIT } else { 0 }) | (
    if api.spec_contains(Api { bits: 4 }) { egl::OPENGL_ES2_BIT } else { 0 }) | (
    if api.spec_contains(Api { bits: 8 }) { egl::OPENGL_ES3_BIT } else { 0 }) | (
    if api.spec_contains(Api { bits: 1 }) { egl::OPENGL_BIT } else { 0 })
}

/// The color buffer part of the attribute list.
pub open spec fn color_attributes(c: ColorBufferType) -> Seq<i32> {
    match c {
        ColorBufferType::Rgb { r_size, g_size, b_size } => pair(
            egl::COLOR_BUFFER_TYPE,
            egl::RGB_BUFFER,
        ) + pair(egl::RED_SIZE, r_size as i32) + pair(egl::GREEN_SIZE, g_size as i32) + pair(
            egl::BLUE_SIZE,
            b_size as i32,
        ),
        ColorBufferType::Luminance(l) => pair(egl::COLOR_BUFFER_TYPE, egl::LUMINANCE_BUFFER)
            + pair(egl::LUMINANCE_SIZE, l as i32),
    }
}

/// The first part of the attribute list: color buffer, float pixels, alpha, depth, stencil and
/// surface types.
pub open spec fn config_head(t: ConfigTemplate) -> Seq<i32> {
    color_attributes(t.color_buffer_type) + (if t.float_pixels {
        pair(egl::COLOR_COMPONENT_TYPE_EXT, egl::COLOR_COMPONENT_TYPE_FLOAT_EXT)
    } else {
        Seq::empty()
    }) + pair(egl::ALPHA_SIZE, t.alpha_size as i32) + pair(egl::DEPTH_SIZE, t.depth_size as i32)
        + pair(egl::STENCIL_SIZE, t.stencil_size as i32) + pair(
        egl::SURFACE_TYPE,
        surface_type_mask(t.config_surface_types),
    )
}

/// The caveat and swap interval part of the attribute list.
pub open spec fn config_caveat_swap(t: ConfigTemplate) -> Seq<i32> {
    (match t.hardware_accelerated {
        Some(h) => pair(egl::CONFIG_CAVEAT, if h { egl::NONE } else { egl::SLOW_CONFIG }),
        None => Seq::empty(),
    }) + opt_pair_u16(egl::MIN_SWAP_INTERVAL, t.min_swap_interval) + opt_pair_u16(
        egl::MAX_SWAP_INTERVAL,
        t.max_swap_interval,
    )
}

/// The multisampling, Api and pbuffer size part of the attribute list.
pub open spec fn config_samples_api_pbuffer(t: ConfigTemplate) -> Seq<i32> {
    (match t.num_samples {
        Some(n) => pair(egl::SAMPLE_BUFFERS, 1) + pair(egl::SAMPLES, n as i32),
        None => Seq::empty(),
    }) + (match t.api {
        Some(a) => pair(egl::RENDERABLE_TYPE, renderable_type_mask(a)),
        None => Seq::empty(),
    }) + opt_pair_u32(egl::MAX_PBUFFER_WIDTH, t.max_pbuffer_width) + opt_pair_u32(
        egl::MAX_PBUFFER_HEIGHT,
        t.max_pbuffer_height,
    )
}

/// The attribute list that `eglChooseConfig` gets for a template, when the template asks for
/// nothing the display lacks; it ends with `EGL_NONE`.
pub open spec fn config_attribute_list(t: ConfigTemplate) -> Seq<i32> {
    config_head(t) + config_caveat_swap(t) + config_samples_api_pbuffer(t) + seq![egl::NONE]
}

proof fn lemma_even_concat(a: Seq<i32>, b: Seq<i32>)
    requires
        a.len() % 2 == 0,
        b.len() % 2 == 0,
    ensures
        (a + b).len() % 2 == 0,
{
    assert((a + b).len() == a.len() + b.len());
}

proof fn lemma_parts_even(t: ConfigTemplate)
    ensures
        config_head(t).len() % 2 == 0,
        config_caveat_swap(t).len() % 2 == 0,
        config_samples_api_pbuffer(t).len() % 2 == 0,
{
    let c = color_attributes(t.color_buffer_type);
    assert(c.len() == 8 || c.len() == 4);
    let f = if t.float_pixels {
        pair(egl::COLOR_COMPONENT_TYPE_EXT, egl::COLOR_COMPONENT_TYPE_FLOAT_EXT)
    } else {
        Seq::empty()
    };
    assert(f.len() == 0 || f.len() == 2);
    lemma_even_concat(c, f);
    lemma_even_concat(c + f, pair(egl::ALPHA_SIZE, t.alpha_size as i32));
    lemma_even_concat(
        c + f + pair(egl::ALPHA_SIZE, t.alpha_size as i32),
        pair(egl::DEPTH_SIZE, t.depth_size as i32),
    );
    lemma_even_concat(
        c + f + pair(egl::ALPHA_SIZE, t.alpha_size as i32) + pair(
            egl::DEPTH_SIZE,
            t.depth_size as i32,
        ),
        pair(egl::STENCIL_SIZE, t.stencil_size as i32),
    );
    lemma_even_concat(
        c + f + pair(egl::ALPHA_SIZE, t.alpha_size as i32) + pair(
            egl::DEPTH_SIZE,
            t.depth_size as i32,
        ) + pair(egl::STENCIL_SIZE, t.stencil_size as i32),
        pair(egl::SURFACE_TYPE, surface_type_mask(t.config_surface_types)),
    );
    let cav = match t.hardware_accelerated {
        Some(h) => pair(egl::CONFIG_CAVEAT, if h { egl::NONE } else { egl::SLOW_CONFIG }),
        None => Seq::empty(),
    };
    let mn = opt_pair_u16(egl::MIN_SWAP_INTERVAL, t.min_swap_interval);
    let mx = opt_pair_u16(egl::MAX_SWAP_INTERVAL, t.max_swap_interval);
    assert(cav.len() % 2 == 0 && mn.len() % 2 == 0 && mx.len() % 2 == 0);
    lemma_even_concat(cav, mn);
    lemma_even_concat(cav + mn, mx);
    let sm = match t.num_samples {
        Some(n) => pair(egl::SAMPLE_BUFFERS, 1) + pair(egl::SAMPLES, n as i32),
        None => Seq::empty(),
    };
    let ap = match t.api {
        Some(a) => pair(egl::RENDERABLE_TYPE, renderable_type_mask(a)),
        None => Seq::empty(),
    };
    let w = opt_pair_u32(egl::MAX_PBUFFER_WIDTH, t.max_pbuffer_width);
    let h = opt_pair_u32(egl::MAX_PBUFFER_HEIGHT, t.max_pbuffer_height);
    assert(sm.len() % 2 == 0 && ap.len() % 2 == 0 && w.len() % 2 == 0 && h.len() % 2 == 0);
    lemma_even_concat(sm, ap);
    lemma_even_concat(sm + ap, w);
    lemma_even_concat(sm + ap + w, h);
}

/// The attribute list `eglChooseConfig` gets is made of name and value pairs and ends with
/// `EGL_NONE`.
pub proof fn lemma_config_attribute_list_terminated(t: ConfigTemplate)
    ensures
        config_attribute_list(t).last() == egl::NONE,
        config_attribute_list(t).len() % 2 == 1,
{
    lemma_parts_even(t);
    lemma_even_concat(config_head(t), config_caveat_swap(t));
    lemma_even_concat(config_head(t) + config_caveat_swap(t), config_samples_api_pbuffer(t));
}

/// Push an attribute and its value.
pub fn push_pair(attrs: &mut Vec<i32>, name: i32, value: i32)
    ensures
        final(attrs)@ == old(attrs)@ + pair(name, value),
{
    attrs.push(name);
    attrs.push(value);
    assert(attrs@ =~= old(attrs)@ + pair(name, value));
}

/// The `EGL_SURFACE_TYPE` mask for the surface types of a template.
pub fn surface_type_bits(types: ConfigSurfaceTypes) -> (r: i32)
    ensures
        r == surface_type_mask(types),
{
    let w = if types.contains(ConfigSurfaceTypes::window()) { egl::WINDOW_BIT } else { 0 };
    let p = if types.contains(ConfigSurfaceTypes::pbuffer()) { egl::PBUFFER_BIT } else { 0 };
    let x = if types.contains(ConfigSurfaceTypes::pixmap()) { egl::PIXMAP_BIT } else { 0 };
    w | p | x
}

/// The `EGL_RENDERABLE_TYPE` mask for a set of Apis.
pub fn renderable_type_bits(api: Api) -> (r: i32)
    ensures
        r == renderable_type_mask(api),
{
    let a = if api.contains(Api::gles1()) { egl::OPENGL_ES_BIT } else { 0 };
    let b = if api.contains(Api::gles2()) { egl::OPENGL_ES2_BIT } else { 0 };
    let c = if api.contains(Api::gles3()) { egl::OPENGL_ES3_BIT } else { 0 };
    let d = if api.contains(Api::opengl()) { egl::OPENGL_BIT } else { 0 };
    a | b | c | d
}

fn push_caveat_swap(attrs: &mut Vec<i32>, template: &ConfigTemplate)
    ensures
        final(attrs)@ == old(attrs)@ + config_caveat_swap(*template),
{
    let ghost s0 = attrs@;
    if let Some(hardware_accelerated) = template.hardware_accelerated {
        push_pair(attrs, egl::CONFIG_CAVEAT, if hardware_accelerated { egl::NONE } else { egl::SLOW_CONFIG });
    }
    let ghost s1 = attrs@;
    if let Some(min_swap_interval) = template.min_swap_interval {
        push_pair(attrs, egl::MIN_SWAP_INTERVAL, min_swap_interval as i32);
    }
    let ghost s2 = attrs@;
    if let Some(max_swap_interval) = template.max_swap_interval {
        push_pair(attrs, egl::MAX_SWAP_INTERVAL, max_swap_interval as i32);
    }
    assert(attrs@ =~= s0 + config_caveat_swap(*template));
}

fn push_samples_api_pbuffer(attrs: &mut Vec<i32>, template: &ConfigTemplate)
    ensures
        final(attrs)@ == old(attrs)@ + config_samples_api_pbuffer(*template),
{
    let ghost s0 = attrs@;
    if let Some(num_samples) = template.num_samples {
        push_pair(attrs, egl::SAMPLE_BUFFERS, 1);
        push_pair(attrs, egl::SAMPLES, num_samples as i32);
    }
    let ghost s1 = attrs@;
    if let Some(requested_api) = template.api {
        push_pair(attrs, egl::RENDERABLE_TYPE, renderable_type_bits(requested_api));
    }
    let ghost s2 = attrs@;
    if let Some(pbuffer_width) = template.max_pbuffer_width {
        push_pair(attrs, egl::MAX_PBUFFER_WIDTH, pbuffer_width as i32);
    }
    let ghost s3 = attrs@;
    if let Some(pbuffer_height) = template.max_pbuffer_height {
        push_pair(attrs, egl::MAX_PBUFFER_HEIGHT, pbuffer_height as i32);
    }
    assert(attrs@ =~= s0 + config_samples_api_pbuffer(*template));
}

fn config_head_attributes(template: &ConfigTemplate, features: &DisplayFeatures) -> (r: Result<
    Vec<i32>,
    Error,
>)
    ensures
        r is Err <==> template.float_pixels && !features.float_pixel_format,
        r matches Err(e) ==> e.kind == ErrorKind::NotSupported("float pixels not supported"),
        r matches Ok(v) ==> v@ == config_head(*template),
{
    let mut attrs: Vec<i32> = Vec::new();
    match template.color_buffer_type {
        ColorBufferType::Rgb { r_size, g_size, b_size } => {
            push_pair(&mut attrs, egl::COLOR_BUFFER_TYPE, egl::RGB_BUFFER);
            push_pair(&mut attrs, egl::RED_SIZE, r_size as i32);
            push_pair(&mut attrs, egl::GREEN_SIZE, g_size as i32);
            push_pair(&mut attrs, egl::BLUE_SIZE, b_size as i32);
        },
        ColorBufferType::Luminance(luminance) => {
            push_pair(&mut attrs, egl::COLOR_BUFFER_TYPE, egl::LUMINANCE_BUFFER);
            push_pair(&mut attrs, egl::LUMINANCE_SIZE, luminance as i32);
        },
    }
    assert(attrs@ =~= color_attributes(template.color_buffer_type));
    if template.float_pixels && features.float_pixel_format {
        push_pair(&mut attrs, egl::COLOR_COMPONENT_TYPE_EXT, egl::COLOR_COMPONENT_TYPE_FLOAT_EXT);
    } else if template.float_pixels {
        return Err(Error::from_kind(ErrorKind::NotSupported("float pixels not supported")));
    }
    push_pair(&mut attrs, egl::ALPHA_SIZE, template.alpha_size as i32);
    push_pair(&mut attrs, egl::DEPTH_SIZE, template.depth_size as i32);
    push_pair(&mut attrs, egl::STENCIL_SIZE, template.stencil_size as i32);
    push_pair(&mut attrs, egl::SURFACE_TYPE, surface_type_bits(template.config_surface_types));
    assert(attrs@ =~= config_head(*template));
    Ok(attrs)
}

/// The attribute list `eglChooseConfig` gets for `template`.
///
/// Floating point pixels are refused when the display lacks `EGL_EXT_pixel_format_float`.
pub fn config_attributes(template: &ConfigTemplate, features: &DisplayFeatures) -> (r: Result<
    Vec<i32>,
    Error,
>)
    ensures
        r is Err <==> template.float_pixels && !features.float_pixel_format,
        r matches Err(e) ==> e.kind == ErrorKind::NotSupported("float pixels not supported"),
        r matches Ok(v) ==> v@ == config_attribute_list(*template),
{
    let mut attrs = match config_head_attributes(template, features) {
        Ok(a) => a,
        Err(e) => return Err(e),
    };
    push_caveat_swap(&mut attrs, template);
    push_samples_api_pbuffer(&mut attrs, template);
    attrs.push(egl::NONE);
    Ok(attrs)
}

/// Whether a config whose native visual is `native_visual` can render into the native window
/// the template names. The visual in the window handle is compared because `eglChooseConfig`
/// ignores it.
pub open spec fn spec_matches_native_window(
    native_window: Option<NativeWindowHandle>,
    native_visual: u32,
) -> bool {
    match native_window {
        Some(NativeWindowHandle::Xcb { visual_id, .. }) => visual_id > 0 ==> visual_id
            == native_visual,
        Some(NativeWindowHandle::Xlib { visual_id, .. }) => visual_id > 0 ==> visual_id as u32
            == native_visual,
        _ => true,
    }
}

/// Whether a config whose native visual is `native_visual` can render into the native window
/// the template names.
pub fn matches_native_window(native_window: Option<NativeWindowHandle>, native_visual: u32) -> (r:
    bool)
    ensures
        r == spec_matches_native_window(native_window, native_visual),
{
    match native_window {
        Some(NativeWindowHandle::Xcb { visual_id, .. }) if visual_id > 0 => visual_id
            == native_visual,
        Some(NativeWindowHandle::Xlib { visual_id, .. }) if visual_id > 0 => visual_id as u32
            == native_visual,
        _ => true,
    }
}

/// A config that `eglChooseConfig` returned, with the values the filters read.
#[derive(Debug, Clone, Copy, PartialEq, Eq)]
pub struct ConfigCandidate {
    /// The raw `EGLConfig`, by its address.
    pub raw: usize,
    /// Its `EGL_NATIVE_VISUAL_ID`.
    pub native_visual: u32,
    /// Whether it supports transparency, when that is known.
    pub supports_transparency: Option<bool>,
}

/// Whether a candidate config is kept for a template: it must render into the template's
/// native window, and support transparency when the template asks for it (an unknown answer
/// counts as support).
pub open spec fn spec_keep_candidate(t: ConfigTemplate, c: ConfigCandidate) -> bool {
    spec_matches_native_window(t.native_window, c.native_visual) && (!t.transparency || match c.supports_transparency {
        Some(b) => b,
        None => true,
    })
}

/// The candidates a template keeps, in the order `eglChooseConfig` gave them.
pub fn filter_candidates(template: &ConfigTemplate, candidates: &Vec<ConfigCandidate>) -> (r: Vec<
    ConfigCandidate,
>)
    ensures
        r@ == candidates@.filter(|c: ConfigCandidate| spec_keep_candidate(*template, c)),
{
    let mut out: Vec<ConfigCandidate> = Vec::new();
    let n = candidates.len();
    for i in 0..n
        invariant
            n == candidates@.len(),
            out@ == candidates@.take(i as int).filter(
                |c: ConfigCandidate| spec_keep_candidate(*template, c),
            ),
    {
        let c = candidates[i];
        let keep = matches_native_window(template.native_window, c.native_visual) && (
        !template.transparency || match c.supports_transparency {
            Some(b) => b,
            None => true,
        });
        assert(candidates@.take(i + 1).drop_last() =~= candidates@.take(i as int));
        reveal_with_fuel(Seq::filter, 1);
        if keep {
            out.push(c);
        }
    }
    assert(candidates@.take(n as int) =~= candidates@);
    out
}

/// The attribute values of an `EGLConfig`, read once, with what the display knows.
#[derive(Debug, Clone, Copy, PartialEq, Eq)]
pub struct EglConfig {
    /// The raw `EGLConfig`, by its address.
    pub raw: usize,
    /// `EGL_COLOR_BUFFER_TYPE`.
    pub color_buffer_type: i32,
    /// `EGL_LUMINANCE_SIZE`.
    pub luminance_size: i32,
    /// `EGL_RED_SIZE`.
    pub red_size: i32,
    /// `EGL_GREEN_SIZE`.
    pub green_size: i32,
    /// `EGL_BLUE_SIZE`.
    pub blue_size: i32,
    /// `EGL_COLOR_COMPONENT_TYPE_EXT`.
    pub color_component_type: i32,
    /// `EGL_ALPHA_SIZE`.
    pub alpha_size: i32,
    /// `EGL_DEPTH_SIZE`.
    pub depth_size: i32,
    /// `EGL_STENCIL_SIZE`.
    pub stencil_size: i32,
    /// `EGL_SAMPLES`.
    pub samples: i32,
    /// `EGL_SURFACE_TYPE`.
    pub surface_type: i32,
    /// `EGL_CONFIG_CAVEAT`.
    pub config_caveat: i32,
    /// `EGL_RENDERABLE_TYPE`.
    pub renderable_type: i32,
    /// `EGL_NATIVE_VISUAL_ID`.
    pub native_visual: i32,
    /// The features of the display the config belongs to.
    pub features: DisplayFeatures,
    /// The native display the EGL display was created on, if it is known.
    pub native_display: Option<NativeDisplayHandle>,
    /// Whether the X11 visual of the config supports transparency, if it has one.
    pub x11_visual_transparency: Option<bool>,
}

/// The color buffer type an `EglConfig` reports.
pub open spec fn spec_color_buffer_type(c: EglConfig) -> Option<ColorBufferType> {
    if c.color_buffer_type == egl::LUMINANCE_BUFFER {
        Some(ColorBufferType::Luminance(c.luminance_size as u8))
    } else if c.color_buffer_type == egl::RGB_BUFFER {
        Some(
            ColorBufferType::Rgb {
                r_size: c.red_size as u8,
                g_size: c.green_size as u8,
                b_size: c.blue_size as u8,
            },
        )
    } else {
        None
    }
}

/// The surface types an `EglConfig` reports.
pub open spec fn spec_surface_types(raw: i32) -> u8 {
    (if raw & egl::WINDOW_BIT != 0 { 1u8 } else { 0u8 }) | (if raw & egl::PBUFFER_BIT != 0 {
        4u8
    } else {
        0u8
    }) | (if raw & egl::PIXMAP_BIT != 0 { 2u8 } else { 0u8 })
}

/// The Apis an `EglConfig` reports.
pub open spec fn spec_api(raw: i32) -> u8 {
    (if raw & egl::OPENGL_BIT != 0 { 1u8 } else { 0u8 }) | (if raw & egl::OPENGL_ES_BIT != 0 {
        2u8
    } else {
        0u8
    }) | (if raw & egl::OPENGL_ES2_BIT != 0 { 4u8 } else { 0u8 }) | (if raw & egl::OPENGL_ES3_BIT
        != 0 { 8u8 } else { 0u8 })
}

/// The Apis read back from the `EGL_RENDERABLE_TYPE` mask asked for a set of Apis are that
/// set: the mask loses no Api and adds none.
pub proof fn lemma_renderable_type_round_trip(api: Api)
    requires
        api.bits < 16,
    ensures
        spec_api(renderable_type_mask(api)) == api.bits,
{
    let b = api.bits;
    let m = renderable_type_mask(api);
    assert(m == (if b & 2 == 2 { 1i32 } else { 0i32 }) | (if b & 4 == 4 { 4i32 } else { 0i32 }) | (
    if b & 8 == 8 { 0x40i32 } else { 0i32 }) | (if b & 1 == 1 { 8i32 } else { 0i32 }));
    assert(spec_api(m) == (if m & 8 != 0 { 1u8 } else { 0u8 }) | (if m & 1 != 0 { 2u8 } else { 0u8 })
        | (if m & 4 != 0 { 4u8 } else { 0u8 }) | (if m & 0x40 != 0 { 8u8 } else { 0u8 }));
    assert(((if m & 8 != 0 { 1u8 } else { 0u8 }) | (if m & 1 != 0 { 2u8 } else { 0u8 }) | (if m & 4
        != 0 { 4u8 } else { 0u8 }) | (if m & 0x40 != 0 { 8u8 } else { 0u8 })) == b) by (bit_vector)
        requires
            b < 16,
            m == (if b & 2 == 2 { 1i32 } else { 0i32 }) | (if b & 4 == 4 { 4i32 } else { 0i32 }) | (
            if b & 8 == 8 { 0x40i32 } else { 0i32 }) | (if b & 1 == 1 { 8i32 } else { 0i32 }),
    ;
}

/// Whether an `EglConfig` supports transparency, as far as its native display tells.
pub open spec fn spec_supports_transparency(c: EglConfig) -> Option<bool> {
    match c.native_display {
        Some(NativeDisplayHandle::Xlib { .. }) | Some(NativeDisplayHandle::Xcb { .. }) => c.x11_visual_transparency,
        Some(NativeDisplayHandle::Wayland { .. }) => Some(c.alpha_size as u8 != 0),
        _ => None,
    }
}

impl EglConfig {
    /// The native visual identifier.
    pub fn native_visual(&self) -> (r: u32)
        ensures
            r == self.native_visual as u32,
    {
        self.native_visual as u32
    }
}

impl GlConfig for EglConfig {
    fn color_buffer_type(&self) -> (r: Option<ColorBufferType>)
        ensures
            r == spec_color_buffer_type(*self),
    {
        if self.color_buffer_type == egl::LUMINANCE_BUFFER {
            Some(ColorBufferType::Luminance(self.luminance_size as u8))
        } else if self.color_buffer_type == egl::RGB_BUFFER {
            Some(
                ColorBufferType::Rgb {
                    r_size: self.red_size as u8,
                    g_size: self.green_size as u8,
                    b_size: self.blue_size as u8,
                },
            )
        } else {
            None
        }
    }

    fn float_pixels(&self) -> (r: bool)
        ensures
            r == (self.features.float_pixel_format && self.color_component_type
                == egl::COLOR_COMPONENT_TYPE_FLOAT_EXT),
    {
        self.features.float_pixel_format && self.color_component_type
            == egl::COLOR_COMPONENT_TYPE_FLOAT_EXT
    }

    fn alpha_size(&self) -> (r: u8)
        ensures
            r == self.alpha_size as u8,
    {
        self.alpha_size as u8
    }

    fn depth_size(&self) -> (r: u8)
        ensures
            r == self.depth_size as u8,
    {
        self.depth_size as u8
    }

    fn stencil_size(&self) -> (r: u8)
        ensures
            r == self.stencil_size as u8,
    {
        self.stencil_size as u8
    }

    fn num_samples(&self) -> (r: u8)
        ensures
            r == self.samples as u8,
    {
        self.samples as u8
    }

    fn srgb_capable(&self) -> (r: bool)
        ensures
            r == self.features.srgb_framebuffers,
    {
        self.features.srgb_framebuffers
    }

    fn supports_transparency(&self) -> (r: Option<bool>)
        ensures
            r == spec_supports_transparency(*self),
    {
        match self.native_display {
            Some(NativeDisplayHandle::Xlib { .. }) | Some(NativeDisplayHandle::Xcb { .. }) => {
                self.x11_visual_transparency
            },
            Some(NativeDisplayHandle::Wayland { .. }) => Some(self.alpha_size as u8 != 0),
            _ => None,
        }
    }

    fn hardware_accelerated(&self) -> (r: bool)
        ensures
            r == (self.config_caveat != egl::SLOW_CONFIG),
    {
        self.config_caveat != egl::SLOW_CONFIG
    }

    fn config_surface_types(&self) -> (r: ConfigSurfaceTypes)
        ensures
            r.bits == spec_surface_types(self.surface_type),
    {
        let raw = self.surface_type;
        let w: u8 = if raw & egl::WINDOW_BIT != 0 { 1 } else { 0 };
        let p: u8 = if raw & egl::PBUFFER_BIT != 0 { 4 } else { 0 };
        let x: u8 = if raw & egl::PIXMAP_BIT != 0 { 2 } else { 0 };
        ConfigSurfaceTypes { bits: w | p | x }
    }

    fn api(&self) -> (r: Api)
        ensures
            r.bits == spec_api(self.renderable_type),
    {
        let raw = self.renderable_type;
        let a: u8 = if raw & egl::OPENGL_BIT != 0 { 1 } else { 0 };
        let b: u8 = if raw & egl::OPENGL_ES_BIT != 0 { 2 } else { 0 };
        let c: u8 = if raw & egl::OPENGL_ES2_BIT != 0 { 4 } else { 0 };
        let d: u8 = if raw & egl::OPENGL_ES3_BIT != 0 { 8 } else { 0 };
        Api { bits: a | b | c | d }
    }
}

} // verus!
