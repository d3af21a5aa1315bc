//! GLX framebuffer configs: the attribute list `glXChooseFBConfig` gets for a template, which
//! of the configs it returns are kept, and what a config reports.
use vstd::prelude::*;

use super::consts as glx;
use crate::config::{
    Api, ColorBufferType, ConfigSurfaceTypes, ConfigTemplate, DisplayFeatures, GlConfig,
    NativeWindowHandle,
};
use crate::error::{Error, ErrorKind};

verus! {

/// `[name, value]`.
pub open spec fn pair(name: i32, value: i32) -> Seq<i32> {
    seq![name, value]
}

/// The color part: the visual type and the component sizes.
pub open spec fn color_part(c: ColorBufferType) -> Seq<i32> {
    match c {
        ColorBufferType::Rgb { r_size, g_size, b_size } => pair(glx::X_VISUAL_TYPE, glx::TRUE_COLOR)
            + pair(glx::RED_SIZE, r_size as i32) + pair(glx::GREEN_SIZE, g_size as i32) + pair(
            glx::BLUE_SIZE,
            b_size as i32,
        ),
        ColorBufferType::Luminance(l) => pair(glx::X_VISUAL_TYPE, glx::GRAY_SCALE) + pair(
            glx::RED_SIZE,
            l as i32,
        ),
    }
}

/// The render type a template asks for; `None` when it asks for float pixels the display
/// lacks.
pub open spec fn render_type(t: ConfigTemplate, f: DisplayFeatures) -> Option<i32> {
    if t.float_pixels && f.float_pixel_format {
        Some(glx::RGBA_FLOAT_BIT_ARB)
    } else if t.float_pixels {
        None
    } else {
        Some(glx::RGBA_BIT)
    }
}

/// The caveat part.
pub open spec fn caveat_part(hardware_accelerated: Option<bool>) -> Seq<i32> {
    match hardware_accelerated {
        Some(true) => pair(glx::CONFIG_CAVEAT, glx::NONE),
        Some(false) => pair(glx::CONFIG_CAVEAT, glx::SLOW_CONFIG),
        None => seq![],
    }
}

/// The buffering and sizes part.
pub open spec fn sizes_part(t: ConfigTemplate) -> Seq<i32> {
    pair(
        glx::DOUBLEBUFFER,
        if t.single_buffering {
            0i32
        } else {
            1i32
        },
    ) + pair(glx::ALPHA_SIZE, t.alpha_size as i32) + pair(glx::DEPTH_SIZE, t.depth_size as i32)
        + pair(glx::STENCIL_SIZE, t.stencil_size as i32)
}

/// The visual part: the visual of an Xlib window, where it has one.
pub open spec fn visual_part(native_window: Option<NativeWindowHandle>) -> Seq<i32> {
    match native_window {
        Some(NativeWindowHandle::Xlib { visual_id, .. }) if visual_id > 0 => pair(
            glx::VISUAL_ID,
            visual_id as i32,
        ),
        _ => seq![],
    }
}

/// The drawable type bits of a template's surface types.
pub open spec fn drawable_bits(types: ConfigSurfaceTypes) -> i32 {
    (if types.spec_contains(ConfigSurfaceTypes { bits: 1 }) {
        glx::WINDOW_BIT
    } else {
        0i32
    }) | (if types.spec_contains(ConfigSurfaceTypes { bits: 4 }) {
        glx::PBUFFER_BIT
    } else {
        0i32
    }) | (if types.spec_contains(ConfigSurfaceTypes { bits: 2 }) {
        glx::PIXMAP_BIT
    } else {
        0i32
    })
}

/// `[name, value]` when there is a value.
pub open spec fn opt_pair(name: i32, value: Option<u32>) -> Seq<i32> {
    match value {
        Some(v) => pair(name, v as i32),
        None => seq![],
    }
}

/// The tail: pbuffer limits, stereo and multisampling (only with multisampled formats).
pub open spec fn tail_part(t: ConfigTemplate, f: DisplayFeatures) -> Seq<i32> {
    opt_pair(glx::MAX_PBUFFER_WIDTH, t.max_pbuffer_width) + opt_pair(
        glx::MAX_PBUFFER_HEIGHT,
        t.max_pbuffer_height,
    ) + (match t.stereoscopy {
        Some(s) => pair(glx::STEREO, if s { 1i32 } else { 0i32 }),
        None => seq![],
    }) + (match t.num_samples {
        Some(n) if f.multisampling_pixel_formats => pair(glx::SAMPLE_BUFFERS, 1i32) + pair(
            glx::SAMPLES,
            n as i32,
        ),
        _ => seq![],
    })
}

/// The zero terminated attribute list `glXChooseFBConfig` gets for a template.
pub open spec fn spec_config_attributes(t: ConfigTemplate, f: DisplayFeatures) -> Seq<i32> {
    color_part(t.color_buffer_type) + pair(glx::RENDER_TYPE, render_type(t, f)->0) + caveat_part(
        t.hardware_accelerated,
    ) + sizes_part(t) + visual_part(t.native_window) + pair(
        glx::DRAWABLE_TYPE,
        drawable_bits(t.config_surface_types),
    ) + tail_part(t, f) + seq![0i32]
}

proof fn lemma_even_concat(a: Seq<i32>, b: Seq<i32>)
    requires
        a.len() % 2 == 0,
        b.len() % 2 == 0,
    ensures
        (a + b).len() % 2 == 0,
{
    assert((a + b).len() == a.len() + b.len());
}

proof fn lemma_tail_even(t: ConfigTemplate, f: DisplayFeatures)
    ensures
        tail_part(t, f).len() % 2 == 0,
{
    let w = opt_pair(glx::MAX_PBUFFER_WIDTH, t.max_pbuffer_width);
    let h = opt_pair(glx::MAX_PBUFFER_HEIGHT, t.max_pbuffer_height);
    let st = match t.stereoscopy {
        Some(s) => pair(glx::STEREO, if s { 1i32 } else { 0i32 }),
        None => seq![],
    };
    let sm = match t.num_samples {
        Some(n) if f.multisampling_pixel_formats => pair(glx::SAMPLE_BUFFERS, 1i32) + pair(
            glx::SAMPLES,
            n as i32,
        ),
        _ => seq![],
    };
    assert(w.len() % 2 == 0);
    assert(h.len() % 2 == 0);
    assert(st.len() % 2 == 0);
    assert(sm.len() % 2 == 0);
    lemma_even_concat(w, h);
    lemma_even_concat(w + h, st);
    lemma_even_concat(w + h + st, sm);
}

proof fn lemma_head_even(t: ConfigTemplate, f: DisplayFeatures)
    requires
        render_type(t, f) is Some,
    ensures
        (color_part(t.color_buffer_type) + pair(glx::RENDER_TYPE, render_type(t, f)->0)
            + caveat_part(t.hardware_accelerated) + sizes_part(t) + visual_part(t.native_window)
            + pair(glx::DRAWABLE_TYPE, drawable_bits(t.config_surface_types))).len() % 2 == 0,
{
    let c = color_part(t.color_buffer_type);
    let r = pair(glx::RENDER_TYPE, render_type(t, f)->0);
    let cv = caveat_part(t.hardware_accelerated);
    let sz = sizes_part(t);
    let vp = visual_part(t.native_window);
    let d = pair(glx::DRAWABLE_TYPE, drawable_bits(t.config_surface_types));
    assert(c.len() % 2 == 0);
    assert(cv.len() % 2 == 0);
    assert(sz.len() == 8);
    assert(vp.len() % 2 == 0);
    lemma_even_concat(c, r);
    lemma_even_concat(c + r, cv);
    lemma_even_concat(c + r + cv, sz);
    lemma_even_concat(c + r + cv + sz, vp);
    lemma_even_concat(c + r + cv + sz + vp, d);
}

/// The attribute list `glXChooseFBConfig` gets is made of name and value pairs and ends with
/// the X11 `None`.
pub proof fn lemma_config_attributes_terminated(t: ConfigTemplate, f: DisplayFeatures)
    requires
        render_type(t, f) is Some,
    ensures
        spec_config_attributes(t, f).last() == 0,
        spec_config_attributes(t, f).len() % 2 == 1,
{
    lemma_head_even(t, f);
    lemma_tail_even(t, f);
    let head = color_part(t.color_buffer_type) + pair(glx::RENDER_TYPE, render_type(t, f)->0)
        + caveat_part(t.hardware_accelerated) + sizes_part(t) + visual_part(t.native_window)
        + pair(glx::DRAWABLE_TYPE, drawable_bits(t.config_surface_types));
    lemma_even_concat(head, tail_part(t, f));
    assert(spec_config_attributes(t, f) == head + tail_part(t, f) + seq![0i32]);
}

fn push_pair(attrs: &mut Vec<i32>, name: i32, value: i32)
    ensures
        final(attrs)@ == old(attrs)@ + pair(name, value),
{
    attrs.push(name);
    attrs.push(value);
    assert(attrs@ =~= old(attrs)@ + pair(name, value));
}

fn push_color(attrs: &mut Vec<i32>, c: ColorBufferType)
    ensures
        final(attrs)@ == old(attrs)@ + color_part(c),
{
    match c {
        ColorBufferType::Rgb { r_size, g_size, b_size } => {
            push_pair(attrs, glx::X_VISUAL_TYPE, glx::TRUE_COLOR);
            push_pair(attrs, glx::RED_SIZE, r_size as i32);
            push_pair(attrs, glx::GREEN_SIZE, g_size as i32);
            push_pair(attrs, glx::BLUE_SIZE, b_size as i32);
        },
        ColorBufferType::Luminance(l) => {
            push_pair(attrs, glx::X_VISUAL_TYPE, glx::GRAY_SCALE);
            push_pair(attrs, glx::RED_SIZE, l as i32);
        },
    }
    assert(final(attrs)@ =~= old(attrs)@ + color_part(c));
}

fn push_sizes(attrs: &mut Vec<i32>, t: &ConfigTemplate)
    ensures
        final(attrs)@ == old(attrs)@ + caveat_part(t.hardware_accelerated) + sizes_part(*t)
            + visual_part(t.native_window),
{
    let ghost start = attrs@;
    match t.hardware_accelerated {
        Some(true) => push_pair(attrs, glx::CONFIG_CAVEAT, glx::NONE),
        Some(false) => push_pair(attrs, glx::CONFIG_CAVEAT, glx::SLOW_CONFIG),
        None => {},
    }
    let ghost a = attrs@;
    push_pair(attrs, glx::DOUBLEBUFFER, if t.single_buffering { 0 } else { 1 });
    push_pair(attrs, glx::ALPHA_SIZE, t.alpha_size as i32);
    push_pair(attrs, glx::DEPTH_SIZE, t.depth_size as i32);
    push_pair(attrs, glx::STENCIL_SIZE, t.stencil_size as i32);
    let ghost b = attrs@;
    match t.native_window {
        Some(NativeWindowHandle::Xlib { visual_id, .. }) => {
            if visual_id > 0 {
                push_pair(attrs, glx::VISUAL_ID, visual_id as i32);
            }
        },
        _ => {},
    }
    assert(a =~= start + caveat_part(t.hardware_accelerated));
    assert(b =~= a + sizes_part(*t));
    assert(attrs@ =~= b + visual_part(t.native_window));
}

fn push_tail(attrs: &mut Vec<i32>, t: &ConfigTemplate, f: &DisplayFeatures)
    ensures
        final(attrs)@ == old(attrs)@ + tail_part(*t, *f),
{
    let ghost start = attrs@;
    match t.max_pbuffer_width {
        Some(w) => push_pair(attrs, glx::MAX_PBUFFER_WIDTH, w as i32),
        None => {},
    }
    let ghost a = attrs@;
    match t.max_pbuffer_height {
        Some(h) => push_pair(attrs, glx::MAX_PBUFFER_HEIGHT, h as i32),
        None => {},
    }
    let ghost b = attrs@;
    match t.stereoscopy {
        Some(s) => push_pair(attrs, glx::STEREO, if s { 1 } else { 0 }),
        None => {},
    }
    let ghost c = attrs@;
    match t.num_samples {
        Some(n) => {
            if f.multisampling_pixel_formats {
                push_pair(attrs, glx::SAMPLE_BUFFERS, 1);
                push_pair(attrs, glx::SAMPLES, n as i32);
            }
        },
        None => {},
    }
    assert(a =~= start + opt_pair(glx::MAX_PBUFFER_WIDTH, t.max_pbuffer_width));
    assert(b =~= a + opt_pair(glx::MAX_PBUFFER_HEIGHT, t.max_pbuffer_height));
    assert(attrs@ =~= start + tail_part(*t, *f));
}

/// The zero terminated attribute list `glXChooseFBConfig` gets for a template; float pixels
/// are refused where the display has no float formats.
pub fn config_attributes(template: &ConfigTemplate, features: &DisplayFeatures) -> (r: Result<
    Vec<i32>,
    Error,
>)
    ensures
        r is Ok <==> render_type(*template, *features) is Some,
        r matches Err(e) ==> e.kind == ErrorKind::NotSupported("float pixels are not supported"),
        r matches Ok(a) ==> a@ == spec_config_attributes(*template, *features),
{
    let mut attrs: Vec<i32> = Vec::new();
    push_color(&mut attrs, template.color_buffer_type);
    let render = if template.float_pixels && features.float_pixel_format {
        glx::RGBA_FLOAT_BIT_ARB
    } else if template.float_pixels {
        return Err(Error::from_kind(ErrorKind::NotSupported("float pixels are not supported")));
    } else {
        glx::RGBA_BIT
    };
    push_pair(&mut attrs, glx::RENDER_TYPE, render);
    push_sizes(&mut attrs, template);
    let bits = (if template.config_surface_types.contains(ConfigSurfaceTypes::window()) {
        glx::WINDOW_BIT
    } else {
        0i32
    }) | (if template.config_surface_types.contains(ConfigSurfaceTypes::pbuffer()) {
        glx::PBUFFER_BIT
    } else {
        0i32
    }) | (if template.config_surface_types.contains(ConfigSurfaceTypes::pixmap()) {
        glx::PIXMAP_BIT
    } else {
        0i32
    });
    push_pair(&mut attrs, glx::DRAWABLE_TYPE, bits);
    push_tail(&mut attrs, template, features);
    attrs.push(0);
    assert(attrs@ =~= spec_config_attributes(*template, *features));
    Ok(attrs)
}

/// `glXChooseFBConfig` returning no list is a bad config.
pub fn check_chosen(list_returned: bool) -> (r: Result<(), Error>)
    ensures
        r is Ok <==> list_returned,
        r matches Err(e) ==> e.kind == ErrorKind::BadConfig,
{
    if list_returned {
        Ok(())
    } else {
        Err(Error::from_kind(ErrorKind::BadConfig))
    }
}

/// Whether a config is kept: a template that asks for transparency keeps only configs whose
/// visual is known to support it.
pub fn keep_config(transparency: bool, supports_transparency: Option<bool>) -> (r: bool)
    ensures
        r == (!transparency || supports_transparency == Some(true)),
{
    !transparency || match supports_transparency {
        Some(b) => b,
        None => false,
    }
}

/// A GLX config, by the values it reports through `glXGetFBConfigAttrib`, what its visual says
/// of transparency, and what the display supports.
#[derive(Debug, Clone, Copy, PartialEq, Eq)]
pub struct GlxConfig {
    /// `GLX_X_VISUAL_TYPE`.
    pub x_visual_type: i32,
    /// `GLX_RED_SIZE`.
    pub red_size: i32,
    /// `GLX_GREEN_SIZE`.
    pub green_size: i32,
    /// `GLX_BLUE_SIZE`.
    pub blue_size: i32,
    /// `GLX_RENDER_TYPE`.
    pub render_type: i32,
    /// `GLX_ALPHA_SIZE`.
    pub alpha_size: i32,
    /// `GLX_CONFIG_CAVEAT`.
    pub config_caveat: i32,
    /// `GLX_FRAMEBUFFER_SRGB_CAPABLE_ARB` (the EXT attribute has the same value).
    pub srgb_capable: i32,
    /// `GLX_DEPTH_SIZE`.
    pub depth_size: i32,
    /// `GLX_STENCIL_SIZE`.
    pub stencil_size: i32,
    /// `GLX_SAMPLES`.
    pub samples: i32,
    /// `GLX_DRAWABLE_TYPE`.
    pub drawable_type: i32,
    /// `GLX_DOUBLEBUFFER`.
    pub double_buffer: i32,
    /// Whether the visual of the config supports transparency; `None` without a visual.
    pub visual_transparency: Option<bool>,
    /// The features of the display.
    pub features: DisplayFeatures,
    /// Whether the display has `GLX_ARB_framebuffer_sRGB` or `GLX_EXT_framebuffer_sRGB`.
    pub srgb_extension: bool,
}

/// The surface type bits of a GLX drawable type.
pub open spec fn spec_surface_bits(drawable_type: i32) -> u8 {
    (if drawable_type & glx::WINDOW_BIT != 0 {
        1u8
    } else {
        0u8
    }) | (if drawable_type & glx::PBUFFER_BIT != 0 {
        4u8
    } else {
        0u8
    }) | (if drawable_type & glx::PIXMAP_BIT != 0 {
        2u8
    } else {
        0u8
    })
}

impl GlxConfig {
    /// A config without double buffering.
    pub fn is_single_buffered(&self) -> (r: bool)
        ensures
            r == (self.double_buffer == 0),
    {
        self.double_buffer == 0
    }
}

impl GlConfig for GlxConfig {
    fn color_buffer_type(&self) -> (r: Option<ColorBufferType>)
        ensures
            self.x_visual_type == glx::TRUE_COLOR ==> r == Some(
                ColorBufferType::Rgb {
                    r_size: self.red_size as u8,
                    g_size: self.green_size as u8,
                    b_size: self.blue_size as u8,
                },
            ),
            self.x_visual_type == glx::GRAY_SCALE ==> r == Some(
                ColorBufferType::Luminance(self.red_size as u8),
            ),
            self.x_visual_type != glx::TRUE_COLOR && self.x_visual_type != glx::GRAY_SCALE ==> r
                is None,
    {
        if self.x_visual_type == glx::TRUE_COLOR {
            Some(
                ColorBufferType::Rgb {
                    r_size: self.red_size as u8,
                    g_size: self.green_size as u8,
                    b_size: self.blue_size as u8,
                },
            )
        } else if self.x_visual_type == glx::GRAY_SCALE {
            Some(ColorBufferType::Luminance(self.red_size as u8))
        } else {
            None
        }
    }

    fn float_pixels(&self) -> (r: bool)
        ensures
            r == (self.features.float_pixel_format && self.render_type == glx::RGBA_FLOAT_BIT_ARB),
    {
        self.features.float_pixel_format && self.render_type == glx::RGBA_FLOAT_BIT_ARB
    }

    fn alpha_size(&self) -> (r: u8)
        ensures
            r == self.alpha_size as u8,
    {
        self.alpha_size as u8
    }

    fn depth_size(&self) -> (r: u8)
        ensures
            r == self.depth_size as u8,
    {
        self.depth_size as u8
    }

    fn stencil_size(&self) -> (r: u8)
        ensures
            r == self.stencil_size as u8,
    {
        self.stencil_size as u8
    }

    fn num_samples(&self) -> (r: u8)
        ensures
            r == self.samples as u8,
    {
        self.samples as u8
    }

    fn srgb_capable(&self) -> (r: bool)
        ensures
            r == (self.srgb_extension && self.srgb_capable != 0),
    {
        self.srgb_extension && self.srgb_capable != 0
    }

    fn supports_transparency(&self) -> (r: Option<bool>)
        ensures
            r == self.visual_transparency,
    {
        self.visual_transparency
    }

    fn hardware_accelerated(&self) -> (r: bool)
        ensures
            r == (self.config_caveat != glx::SLOW_CONFIG),
    {
        self.config_caveat != glx::SLOW_CONFIG
    }

    fn config_surface_types(&self) -> (r: ConfigSurfaceTypes)
        ensures
            r.bits == spec_surface_bits(self.drawable_type),
    {
        ConfigSurfaceTypes {
            bits: (if self.drawable_type & glx::WINDOW_BIT != 0 {
                1u8
            } else {
                0u8
            }) | (if self.drawable_type & glx::PBUFFER_BIT != 0 {
                4u8
            } else {
                0u8
            }) | (if self.drawable_type & glx::PIXMAP_BIT != 0 {
                2u8
            } else {
                0u8
            }),
        }
    }

    fn api(&self) -> (r: Api)
        ensures
            r.bits == (if self.features.create_es_context {
                7u8
            } else {
                1u8
            }),
    {
        if self.features.create_es_context {
            Api { bits: 7 }
        } else {
            Api { bits: 1 }
        }
    }
}

} // verus!
