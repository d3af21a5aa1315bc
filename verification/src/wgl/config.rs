//! WGL pixel formats: the descriptor `ChoosePixelFormat` gets, the `WGL_ARB_pixel_format`
//! attribute list, and what a chosen pixel format reports.
use vstd::prelude::*;

use super::consts as wgl;
use crate::config::{
    Api, ColorBufferType, ConfigSurfaceTypes, ConfigTemplate, DisplayFeatures, GlConfig,
    NativeWindowHandle,
};
use crate::error::{Error, ErrorKind};

verus! {

/// The most pixel formats asked for at once.
pub const MAX_QUERY_CONFIGS: usize = 256;

/// The fields of a `PIXELFORMATDESCRIPTOR` that are not zero; its size is the structure's.
#[derive(Debug, Clone, Copy, PartialEq, Eq, Structural)]
pub struct PixelFormatDescriptor {
    /// `nVersion`.
    pub version: u16,
    /// `dwFlags`.
    pub flags: u32,
    /// `iPixelType`.
    pub pixel_type: u8,
    /// `cColorBits`.
    pub color_bits: u8,
    /// `cRedBits`.
    pub red_bits: u8,
    /// `cGreenBits`.
    pub green_bits: u8,
    /// `cBlueBits`.
    pub blue_bits: u8,
    /// `cAlphaBits`.
    pub alpha_bits: u8,
    /// `cDepthBits`.
    pub depth_bits: u8,
    /// `cStencilBits`.
    pub stencil_bits: u8,
    /// `iLayerType`.
    pub layer_type: u8,
}

/// The device context a template's configs are looked for on: the template's Win32 window,
/// else the screen (zero).
pub fn template_window(native_window: Option<NativeWindowHandle>) -> (r: isize)
    ensures
        native_window matches Some(NativeWindowHandle::Win32 { hwnd, .. }) ==> r == hwnd,
        !(native_window matches Some(NativeWindowHandle::Win32 { .. })) ==> r == 0,
{
    match native_window {
        Some(NativeWindowHandle::Win32 { hwnd, .. }) => hwnd,
        _ => 0,
    }
}

/// The stereo flags of a descriptor.
pub open spec fn stereo_flags(stereoscopy: Option<bool>) -> u32 {
    match stereoscopy {
        Some(true) => wgl::PFD_STEREO,
        Some(false) => 0,
        None => wgl::PFD_STEREO_DONTCARE,
    }
}

/// The acceleration flags of a descriptor.
pub open spec fn acceleration_flags(hardware_accelerated: Option<bool>) -> u32 {
    match hardware_accelerated {
        Some(true) => wgl::PFD_GENERIC_ACCELERATED,
        Some(false) => wgl::PFD_GENERIC_FORMAT,
        None => 0,
    }
}

/// `flag` when `cond` holds, else no flag.
pub open spec fn flag_if(cond: bool, flag: u32) -> u32 {
    if cond {
        flag
    } else {
        0
    }
}

/// The flags of the descriptor a template asks `ChoosePixelFormat` for.
pub open spec fn spec_descriptor_flags(t: ConfigTemplate) -> u32 {
    wgl::PFD_SUPPORT_OPENGL | flag_if(!t.single_buffering, wgl::PFD_DOUBLEBUFFER) | flag_if(
        t.config_surface_types.spec_contains(ConfigSurfaceTypes { bits: 1 }),
        wgl::PFD_DRAW_TO_WINDOW,
    ) | flag_if(
        t.config_surface_types.spec_contains(ConfigSurfaceTypes { bits: 2 }),
        wgl::PFD_DRAW_TO_BITMAP,
    ) | stereo_flags(t.stereoscopy) | acceleration_flags(t.hardware_accelerated)
}

fn flag_when(cond: bool, flag: u32) -> (r: u32)
    ensures
        r == flag_if(cond, flag),
{
    if cond {
        flag
    } else {
        0
    }
}

/// Whether the color components of a template fit the one byte their sum is given in.
pub open spec fn color_bits_fit(t: ConfigTemplate) -> bool {
    match t.color_buffer_type {
        ColorBufferType::Rgb { r_size, g_size, b_size } => r_size + g_size + b_size <= u8::MAX,
        ColorBufferType::Luminance(_) => true,
    }
}

/// The descriptor a template asks `ChoosePixelFormat` for. WGL has no luminance buffers.
pub fn normal_descriptor(template: &ConfigTemplate) -> (r: Result<PixelFormatDescriptor, Error>)
    requires
        color_bits_fit(*template),
    ensures
        r is Err <==> template.color_buffer_type is Luminance,
        r matches Err(e) ==> e.kind == ErrorKind::NotSupported(
            "luminance buffers are not supported with WGL",
        ),
        r matches Ok(d) ==> template.color_buffer_type matches ColorBufferType::Rgb {
            r_size,
            g_size,
            b_size,
        } && d == (PixelFormatDescriptor {
            version: 1,
            flags: spec_descriptor_flags(*template),
            pixel_type: wgl::PFD_TYPE_RGBA,
            color_bits: (r_size + g_size + b_size) as u8,
            red_bits: r_size,
            green_bits: g_size,
            blue_bits: b_size,
            alpha_bits: template.alpha_size,
            depth_bits: template.depth_size,
            stencil_bits: template.stencil_size,
            layer_type: wgl::PFD_MAIN_PLANE,
        }),
{
    let (r_size, g_size, b_size) = match template.color_buffer_type {
        ColorBufferType::Rgb { r_size, g_size, b_size } => (r_size, g_size, b_size),
        _ => {
            return Err(
                Error::from_kind(
                    ErrorKind::NotSupported("luminance buffers are not supported with WGL"),
                ),
            );
        },
    };
    let stereo = match template.stereoscopy {
        Some(true) => wgl::PFD_STEREO,
        Some(false) => 0,
        None => wgl::PFD_STEREO_DONTCARE,
    };
    let acceleration = match template.hardware_accelerated {
        Some(true) => wgl::PFD_GENERIC_ACCELERATED,
        Some(false) => wgl::PFD_GENERIC_FORMAT,
        None => 0,
    };
    let flags = wgl::PFD_SUPPORT_OPENGL | flag_when(!template.single_buffering, wgl::PFD_DOUBLEBUFFER)
        | flag_when(
        template.config_surface_types.contains(ConfigSurfaceTypes::window()),
        wgl::PFD_DRAW_TO_WINDOW,
    ) | flag_when(
        template.config_surface_types.contains(ConfigSurfaceTypes::pixmap()),
        wgl::PFD_DRAW_TO_BITMAP,
    ) | stereo | acceleration;
    Ok(
        PixelFormatDescriptor {
            version: 1,
            flags,
            pixel_type: wgl::PFD_TYPE_RGBA,
            color_bits: r_size + g_size + b_size,
            red_bits: r_size,
            green_bits: g_size,
            blue_bits: b_size,
            alpha_bits: template.alpha_size,
            depth_bits: template.depth_size,
            stencil_bits: template.stencil_size,
            layer_type: wgl::PFD_MAIN_PLANE,
        },
    )
}

/// Check what `ChoosePixelFormat` gave for a template: no format (zero) or a format that is not
/// RGBA is a bad config.
pub fn check_normal_choice(index: i32, described: &PixelFormatDescriptor) -> (r: Result<(), Error>)
    ensures
        r is Ok <==> index != 0 && described.pixel_type == wgl::PFD_TYPE_RGBA,
        r matches Err(e) ==> e.kind == ErrorKind::BadConfig,
{
    if index == 0 || described.pixel_type != wgl::PFD_TYPE_RGBA {
        Err(Error::from_kind(ErrorKind::BadConfig))
    } else {
        Ok(())
    }
}

/// The descriptor of the dummy window: a format the main driver of the system likely gives,
/// 24 bits of color, 8 of alpha, 24 of depth and 8 of stencil, double buffered.
pub fn dummy_descriptor() -> (r: PixelFormatDescriptor)
    ensures
        r == (PixelFormatDescriptor {
            version: 1,
            flags: wgl::PFD_DRAW_TO_WINDOW | wgl::PFD_SUPPORT_OPENGL | wgl::PFD_DOUBLEBUFFER,
            pixel_type: wgl::PFD_TYPE_RGBA,
            color_bits: 24,
            red_bits: 0,
            green_bits: 0,
            blue_bits: 0,
            alpha_bits: 8,
            depth_bits: 24,
            stencil_bits: 8,
            layer_type: wgl::PFD_MAIN_PLANE,
        }),
{
    PixelFormatDescriptor {
        version: 1,
        flags: wgl::PFD_DRAW_TO_WINDOW | wgl::PFD_SUPPORT_OPENGL | wgl::PFD_DOUBLEBUFFER,
        pixel_type: wgl::PFD_TYPE_RGBA,
        color_bits: 24,
        red_bits: 0,
        green_bits: 0,
        blue_bits: 0,
        alpha_bits: 8,
        depth_bits: 24,
        stencil_bits: 8,
        layer_type: wgl::PFD_MAIN_PLANE,
    }
}

/// The color part of the ARB attribute list.
pub open spec fn arb_color_part(r: u8, g: u8, b: u8) -> Seq<i32> {
    seq![wgl::RED_BITS_ARB, r as i32, wgl::GREEN_BITS_ARB, g as i32, wgl::BLUE_BITS_ARB, b as i32]
}

/// The sizes and buffering part of the ARB attribute list.
pub open spec fn arb_sizes_part(t: ConfigTemplate) -> Seq<i32> {
    seq![
        wgl::ALPHA_BITS_ARB,
        t.alpha_size as i32,
        wgl::DEPTH_BITS_ARB,
        t.depth_size as i32,
        wgl::STENCIL_BITS_ARB,
        t.stencil_size as i32,
        wgl::SUPPORT_OPENGL_ARB,
        1i32,
        wgl::DOUBLE_BUFFER_ARB,
        if t.single_buffering {
            0i32
        } else {
            1i32
        },
    ]
}

/// The multisampling part of the ARB attribute list: only where the display has multisampled
/// pixel formats.
pub open spec fn arb_samples_part(t: ConfigTemplate, f: DisplayFeatures) -> Seq<i32> {
    match t.num_samples {
        Some(n) if f.multisampling_pixel_formats => seq![
            wgl::SAMPLE_BUFFERS_ARB,
            1i32,
            wgl::SAMPLES_ARB,
            n as i32,
        ],
        _ => seq![],
    }
}

/// The pixel type of the ARB attribute list; `None` when float pixels are asked for and the
/// display has none.
pub open spec fn arb_pixel_type(t: ConfigTemplate, f: DisplayFeatures) -> Option<i32> {
    if f.float_pixel_format && t.float_pixels {
        Some(wgl::TYPE_RGBA_FLOAT_ARB)
    } else if t.float_pixels {
        None
    } else {
        Some(wgl::TYPE_RGBA_ARB)
    }
}

/// The optional tail of the ARB attribute list: stereo, acceleration, drawable support and
/// transparency.
pub open spec fn arb_tail_part(t: ConfigTemplate) -> Seq<i32> {
    (match t.stereoscopy {
        Some(s) => seq![wgl::STEREO_ARB, if s { 1i32 } else { 0i32 }],
        None => seq![],
    }) + (match t.hardware_accelerated {
        Some(true) => seq![wgl::ACCELERATION_ARB, wgl::FULL_ACCELERATION_ARB],
        Some(false) => seq![wgl::ACCELERATION_ARB, wgl::NO_ACCELERATION_ARB],
        None => seq![],
    }) + (if t.config_surface_types.spec_contains(ConfigSurfaceTypes { bits: 1 }) {
        seq![wgl::DRAW_TO_WINDOW_ARB, 1i32]
    } else {
        seq![]
    }) + (if t.config_surface_types.spec_contains(ConfigSurfaceTypes { bits: 2 }) {
        seq![wgl::DRAW_TO_BITMAP_ARB, 1i32]
    } else {
        seq![]
    }) + (if t.transparency {
        seq![wgl::TRANSPARENT_ARB, 1i32]
    } else {
        seq![]
    })
}

/// The zero terminated attribute list `wglChoosePixelFormatARB` gets for a template.
pub open spec fn spec_arb_attributes(t: ConfigTemplate, f: DisplayFeatures, r: u8, g: u8, b: u8) -> Seq<
    i32,
> {
    arb_color_part(r, g, b) + arb_sizes_part(t) + arb_samples_part(t, f) + seq![
        wgl::PIXEL_TYPE_ARB,
        arb_pixel_type(t, f)->0,
    ] + arb_tail_part(t) + seq![0i32]
}

proof fn lemma_even_concat(a: Seq<i32>, b: Seq<i32>)
    requires
        a.len() % 2 == 0,
        b.len() % 2 == 0,
    ensures
        (a + b).len() % 2 == 0,
{
    assert((a + b).len() == a.len() + b.len());
}

/// The attribute list `wglChoosePixelFormatARB` gets is made of name and value pairs and ends
/// with zero.
pub proof fn lemma_arb_attributes_terminated(t: ConfigTemplate, f: DisplayFeatures, r: u8, g: u8, b: u8)
    requires
        arb_pixel_type(t, f) is Some,
    ensures
        spec_arb_attributes(t, f, r, g, b).last() == 0,
        spec_arb_attributes(t, f, r, g, b).len() % 2 == 1,
{
    let c = arb_color_part(r, g, b);
    let sz = arb_sizes_part(t);
    let sm = arb_samples_part(t, f);
    assert(sm.len() == 0 || sm.len() == 4);
    let p = seq![wgl::PIXEL_TYPE_ARB, arb_pixel_type(t, f)->0];
    let st = match t.stereoscopy {
        Some(s) => seq![wgl::STEREO_ARB, if s { 1i32 } else { 0i32 }],
        None => seq![],
    };
    let ac = match t.hardware_accelerated {
        Some(true) => seq![wgl::ACCELERATION_ARB, wgl::FULL_ACCELERATION_ARB],
        Some(false) => seq![wgl::ACCELERATION_ARB, wgl::NO_ACCELERATION_ARB],
        None => seq![],
    };
    let w = if t.config_surface_types.spec_contains(ConfigSurfaceTypes { bits: 1 }) {
        seq![wgl::DRAW_TO_WINDOW_ARB, 1i32]
    } else {
        seq![]
    };
    let px = if t.config_surface_types.spec_contains(ConfigSurfaceTypes { bits: 2 }) {
        seq![wgl::DRAW_TO_BITMAP_ARB, 1i32]
    } else {
        seq![]
    };
    let tr = if t.transparency {
        seq![wgl::TRANSPARENT_ARB, 1i32]
    } else {
        seq![]
    };
    assert(st.len() % 2 == 0 && ac.len() % 2 == 0 && w.len() % 2 == 0 && px.len() % 2 == 0
        && tr.len() % 2 == 0);
    lemma_even_concat(st, ac);
    lemma_even_concat(st + ac, w);
    lemma_even_concat(st + ac + w, px);
    lemma_even_concat(st + ac + w + px, tr);
    assert(arb_tail_part(t) == st + ac + w + px + tr);
    lemma_even_concat(c, sz);
    lemma_even_concat(c + sz, sm);
    lemma_even_concat(c + sz + sm, p);
    lemma_even_concat(c + sz + sm + p, arb_tail_part(t));
}

fn push_pair(attrs: &mut Vec<i32>, name: i32, value: i32)
    ensures
        final(attrs)@ == old(attrs)@ + seq![name, value],
{
    attrs.push(name);
    attrs.push(value);
    assert(attrs@ =~= old(attrs)@ + seq![name, value]);
}

fn push_arb_tail(attrs: &mut Vec<i32>, t: &ConfigTemplate)
    ensures
        final(attrs)@ == old(attrs)@ + arb_tail_part(*t),
{
    let ghost start = attrs@;
    match t.stereoscopy {
        Some(s) => push_pair(attrs, wgl::STEREO_ARB, if s { 1 } else { 0 }),
        None => {},
    }
    let ghost a = attrs@;
    match t.hardware_accelerated {
        Some(true) => push_pair(attrs, wgl::ACCELERATION_ARB, wgl::FULL_ACCELERATION_ARB),
        Some(false) => push_pair(attrs, wgl::ACCELERATION_ARB, wgl::NO_ACCELERATION_ARB),
        None => {},
    }
    let ghost b = attrs@;
    if t.config_surface_types.contains(ConfigSurfaceTypes::window()) {
        push_pair(attrs, wgl::DRAW_TO_WINDOW_ARB, 1);
    }
    let ghost c = attrs@;
    if t.config_surface_types.contains(ConfigSurfaceTypes::pixmap()) {
        push_pair(attrs, wgl::DRAW_TO_BITMAP_ARB, 1);
    }
    let ghost d = attrs@;
    if t.transparency {
        push_pair(attrs, wgl::TRANSPARENT_ARB, 1);
    }
    assert(attrs@ =~= start + arb_tail_part(*t)) by {
        assert(a =~= start + (match t.stereoscopy {
            Some(s) => seq![wgl::STEREO_ARB, if s { 1i32 } else { 0i32 }],
            None => seq![],
        }));
    }
}

/// The zero terminated attribute list `wglChoosePixelFormatARB` gets for a template.
///
/// WGL has no luminance buffers; float pixels are refused where the display has no float pixel
/// formats. Multisampling is asked for only where the display has multisampled formats.
pub fn arb_attributes(template: &ConfigTemplate, features: &DisplayFeatures) -> (r: Result<
    Vec<i32>,
    Error,
>)
    ensures
        template.color_buffer_type is Luminance ==> (r matches Err(e) && e.kind
            == ErrorKind::NotSupported("luminance buffers are not supported with WGL")),
        template.color_buffer_type is Rgb && arb_pixel_type(*template, *features) is None
            ==> (r matches Err(e) && e.kind == ErrorKind::NotSupported(
            "float pixels are not supported",
        )),
        r is Ok <==> template.color_buffer_type is Rgb && arb_pixel_type(*template, *features) is Some,
        r matches Ok(a) ==> template.color_buffer_type matches ColorBufferType::Rgb {
            r_size,
            g_size,
            b_size,
        } && a@ == spec_arb_attributes(*template, *features, r_size, g_size, b_size),
{
    let mut attrs: Vec<i32> = Vec::new();
    let (r_size, g_size, b_size) = match template.color_buffer_type {
        ColorBufferType::Rgb { r_size, g_size, b_size } => (r_size, g_size, b_size),
        _ => {
            return Err(
                Error::from_kind(
                    ErrorKind::NotSupported("luminance buffers are not supported with WGL"),
                ),
            );
        },
    };
    push_pair(&mut attrs, wgl::RED_BITS_ARB, r_size as i32);
    push_pair(&mut attrs, wgl::GREEN_BITS_ARB, g_size as i32);
    push_pair(&mut attrs, wgl::BLUE_BITS_ARB, b_size as i32);
    push_pair(&mut attrs, wgl::ALPHA_BITS_ARB, template.alpha_size as i32);
    push_pair(&mut attrs, wgl::DEPTH_BITS_ARB, template.depth_size as i32);
    push_pair(&mut attrs, wgl::STENCIL_BITS_ARB, template.stencil_size as i32);
    push_pair(&mut attrs, wgl::SUPPORT_OPENGL_ARB, 1);
    push_pair(&mut attrs, wgl::DOUBLE_BUFFER_ARB, if template.single_buffering { 0 } else { 1 });
    assert(attrs@ =~= arb_color_part(r_size, g_size, b_size) + arb_sizes_part(*template));
    let pixel_type = if features.float_pixel_format && template.float_pixels {
        wgl::TYPE_RGBA_FLOAT_ARB
    } else if template.float_pixels {
        return Err(Error::from_kind(ErrorKind::NotSupported("float pixels are not supported")));
    } else {
        wgl::TYPE_RGBA_ARB
    };
    let ghost before_samples = attrs@;
    match template.num_samples {
        Some(n) => {
            if features.multisampling_pixel_formats {
                push_pair(&mut attrs, wgl::SAMPLE_BUFFERS_ARB, 1);
                push_pair(&mut attrs, wgl::SAMPLES_ARB, n as i32);
            }
        },
        None => {},
    }
    assert(attrs@ =~= before_samples + arb_samples_part(*template, *features));
    push_pair(&mut attrs, wgl::PIXEL_TYPE_ARB, pixel_type);
    push_arb_tail(&mut attrs, template);
    attrs.push(0);
    assert(attrs@ =~= spec_arb_attributes(*template, *features, r_size, g_size, b_size));
    Ok(attrs)
}

/// The values a pixel format reports through `wglGetPixelFormatAttribivARB`.
#[derive(Debug, Clone, Copy, PartialEq, Eq, Structural)]
pub struct ArbAttributes {
    /// `WGL_RED_BITS_ARB`.
    pub red_bits: i32,
    /// `WGL_GREEN_BITS_ARB`.
    pub green_bits: i32,
    /// `WGL_BLUE_BITS_ARB`.
    pub blue_bits: i32,
    /// `WGL_ALPHA_BITS_ARB`.
    pub alpha_bits: i32,
    /// `WGL_DEPTH_BITS_ARB`.
    pub depth_bits: i32,
    /// `WGL_STENCIL_BITS_ARB`.
    pub stencil_bits: i32,
    /// `WGL_PIXEL_TYPE_ARB`.
    pub pixel_type: i32,
    /// `WGL_SAMPLES_ARB`.
    pub samples: i32,
    /// `WGL_DRAW_TO_WINDOW_ARB`.
    pub draw_to_window: i32,
    /// `WGL_DRAW_TO_BITMAP_ARB`.
    pub draw_to_bitmap: i32,
    /// `WGL_ACCELERATION_ARB`.
    pub acceleration: i32,
    /// `WGL_TRANSPARENT_ARB`.
    pub transparent: i32,
    /// `WGL_DOUBLE_BUFFER_ARB`.
    pub double_buffer: i32,
    /// `WGL_FRAMEBUFFER_SRGB_CAPABLE_EXT` (the ARB attribute has the same value).
    pub srgb_capable: i32,
}

/// Which sRGB extension a display has: the EXT one (or `WGL_EXT_colorspace`), else the ARB one.
#[derive(Debug, Clone, Copy, PartialEq, Eq, Structural)]
pub enum SrgbSupport {
    /// `WGL_EXT_framebuffer_sRGB` or `WGL_EXT_colorspace`.
    Ext,
    /// `WGL_ARB_framebuffer_sRGB`.
    Arb,
    /// Neither.
    Unsupported,
}

/// A WGL pixel format: the descriptor where it was chosen by `ChoosePixelFormat`, else the
/// values it reports through the ARB query; and what the display supports.
#[derive(Debug, Clone, Copy, PartialEq, Eq)]
pub struct WglConfig {
    /// The pixel format index.
    pub pixel_format_index: i32,
    /// The descriptor of a format chosen by `ChoosePixelFormat`.
    pub descriptor: Option<PixelFormatDescriptor>,
    /// The values the format reports through `wglGetPixelFormatAttribivARB`.
    pub attributes: ArbAttributes,
    /// The features of the display.
    pub features: DisplayFeatures,
    /// The sRGB extension of the display.
    pub srgb: SrgbSupport,
}

/// The surface types of a pixel format as bits: windows for drawing to windows, pixmaps for
/// drawing to bitmaps, read from the descriptor or through the ARB query.
pub open spec fn spec_wgl_surface_bits(c: WglConfig) -> u8 {
    match c.descriptor {
        Some(d) => (if d.flags & wgl::PFD_DRAW_TO_WINDOW != 0 {
            1u8
        } else {
            0u8
        }) | (if d.flags & wgl::PFD_DRAW_TO_BITMAP != 0 {
            2u8
        } else {
            0u8
        }),
        None => (if c.attributes.draw_to_window != 0 {
            1u8
        } else {
            0u8
        }) | (if c.attributes.draw_to_bitmap != 0 {
            2u8
        } else {
            0u8
        }),
    }
}

impl WglConfig {
    /// A format without double buffering.
    pub fn is_single_buffered(&self) -> (r: bool)
        ensures
            r == (match self.descriptor {
                Some(d) => d.flags & wgl::PFD_DOUBLEBUFFER == 0,
                None => self.attributes.double_buffer == 0,
            }),
    {
        match self.descriptor {
            Some(d) => d.flags & wgl::PFD_DOUBLEBUFFER == 0,
            None => self.attributes.double_buffer == 0,
        }
    }
}

impl GlConfig for WglConfig {
    fn color_buffer_type(&self) -> (r: Option<ColorBufferType>)
        ensures
            r == Some(
                match self.descriptor {
                    Some(d) => ColorBufferType::Rgb {
                        r_size: d.red_bits,
                        g_size: d.green_bits,
                        b_size: d.blue_bits,
                    },
                    None => ColorBufferType::Rgb {
                        r_size: self.attributes.red_bits as u8,
                        g_size: self.attributes.green_bits as u8,
                        b_size: self.attributes.blue_bits as u8,
                    },
                },
            ),
    {
        match self.descriptor {
            Some(d) => Some(
                ColorBufferType::Rgb { r_size: d.red_bits, g_size: d.green_bits, b_size: d.blue_bits },
            ),
            None => Some(
                ColorBufferType::Rgb {
                    r_size: self.attributes.red_bits as u8,
                    g_size: self.attributes.green_bits as u8,
                    b_size: self.attributes.blue_bits as u8,
                },
            ),
        }
    }

    fn float_pixels(&self) -> (r: bool)
        ensures
            r == (self.features.float_pixel_format && self.attributes.pixel_type
                == wgl::TYPE_RGBA_FLOAT_ARB),
    {
        self.features.float_pixel_format && self.attributes.pixel_type == wgl::TYPE_RGBA_FLOAT_ARB
    }

    fn alpha_size(&self) -> (r: u8)
        ensures
            r == (match self.descriptor {
                Some(d) => d.alpha_bits,
                None => self.attributes.alpha_bits as u8,
            }),
    {
        match self.descriptor {
            Some(d) => d.alpha_bits,
            None => self.attributes.alpha_bits as u8,
        }
    }

    fn depth_size(&self) -> (r: u8)
        ensures
            r == (match self.descriptor {
                Some(d) => d.depth_bits,
                None => self.attributes.depth_bits as u8,
            }),
    {
        match self.descriptor {
            Some(d) => d.depth_bits,
            None => self.attributes.depth_bits as u8,
        }
    }

    fn stencil_size(&self) -> (r: u8)
        ensures
            r == (match self.descriptor {
                Some(d) => d.stencil_bits,
                None => self.attributes.stencil_bits as u8,
            }),
    {
        match self.descriptor {
            Some(d) => d.stencil_bits,
            None => self.attributes.stencil_bits as u8,
        }
    }

    fn num_samples(&self) -> (r: u8)
        ensures
            r == (if self.features.multisampling_pixel_formats {
                self.attributes.samples as u8
            } else {
                0u8
            }),
    {
        if self.features.multisampling_pixel_formats {
            self.attributes.samples as u8
        } else {
            0
        }
    }

    fn srgb_capable(&self) -> (r: bool)
        ensures
            r == (match self.srgb {
                SrgbSupport::Unsupported => false,
                _ => self.attributes.srgb_capable != 0,
            }),
    {
        match self.srgb {
            SrgbSupport::Unsupported => false,
            _ => self.attributes.srgb_capable != 0,
        }
    }

    fn supports_transparency(&self) -> (r: Option<bool>)
        ensures
            r == (match self.descriptor {
                Some(_) => None,
                None => Some(self.attributes.transparent != 0),
            }),
    {
        match self.descriptor {
            Some(_) => None,
            None => Some(self.attributes.transparent != 0),
        }
    }

    fn hardware_accelerated(&self) -> (r: bool)
        ensures
            r == (match self.descriptor {
                Some(d) => d.flags & wgl::PFD_GENERIC_ACCELERATED != 0,
                None => self.attributes.acceleration != wgl::NO_ACCELERATION_ARB,
            }),
    {
        match self.descriptor {
            Some(d) => d.flags & wgl::PFD_GENERIC_ACCELERATED != 0,
            None => self.attributes.acceleration != wgl::NO_ACCELERATION_ARB,
        }
    }

    fn config_surface_types(&self) -> (r: ConfigSurfaceTypes)
        ensures
            r.bits == spec_wgl_surface_bits(*self),
    {
        match self.descriptor {
            Some(d) => ConfigSurfaceTypes {
                bits: (if d.flags & wgl::PFD_DRAW_TO_WINDOW != 0 {
                    1u8
                } else {
                    0u8
                }) | (if d.flags & wgl::PFD_DRAW_TO_BITMAP != 0 {
                    2u8
                } else {
                    0u8
                }),
            },
            None => ConfigSurfaceTypes {
                bits: (if self.attributes.draw_to_window != 0 {
                    1u8
                } else {
                    0u8
                }) | (if self.attributes.draw_to_bitmap != 0 {
                    2u8
                } else {
                    0u8
                }),
            },
        }
    }

    fn api(&self) -> (r: Api)
        ensures
            r.bits == (if self.features.create_es_context {
                7u8
            } else {
                1u8
            }),
    {
        if self.features.create_es_context {
            Api { bits: 7 }
        } else {
            Api { bits: 1 }
        }
    }
}

/// The window a pixel format is set on: only a Win32 window has one.
pub fn native_window_target(handle: NativeWindowHandle) -> (r: Result<isize, Error>)
    ensures
        handle matches NativeWindowHandle::Win32 { hwnd, .. } ==> r == Ok::<isize, Error>(hwnd),
        !(handle is Win32) ==> (r matches Err(e) && e.kind == ErrorKind::BadNativeWindow),
{
    match handle {
        NativeWindowHandle::Win32 { hwnd, .. } => Ok(hwnd),
        _ => Err(Error::from_kind(ErrorKind::BadNativeWindow)),
    }
}

} // verus!
