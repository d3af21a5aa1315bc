//! The CGL (macOS) platform Api: error codes, the pixel format attribute list, what a pixel
//! format reports, and the context requests CGL refuses.
use vstd::prelude::*;

use crate::config::{
    Api, ColorBufferType, ConfigSurfaceTypes, ConfigTemplate, DisplayFeatures, GlConfig,
    NativeDisplayHandle, NativeWindowHandle,
};
use crate::context::{ContextApi, Robustness};
use crate::error::{Error, ErrorKind};
use crate::surface::SwapInterval;

verus! {

/// The opaque object behind a `CGLContextObj` handle.
pub struct CGLContextObj {
    _opaque: [u8; 0],
}

/// `kCGLNoError`.
pub const NO_ERROR: i32 = 0;
/// `kCGLBadAttribute`.
pub const BAD_ATTRIBUTE: i32 = 10000;
/// `kCGLBadProperty`.
pub const BAD_PROPERTY: i32 = 10001;
/// `kCGLBadPixelFormat`.
pub const BAD_PIXEL_FORMAT: i32 = 10002;
/// `kCGLBadRendererInfo`.
pub const BAD_RENDERER_INFO: i32 = 10003;
/// `kCGLBadContext`.
pub const BAD_CONTEXT: i32 = 10004;
/// `kCGLBadDrawable`.
pub const BAD_DRAWABLE: i32 = 10005;
/// `kCGLBadDisplay`.
pub const BAD_DISPLAY: i32 = 10006;
/// `kCGLBadState`.
pub const BAD_STATE: i32 = 10007;
/// `kCGLBadValue`.
pub const BAD_VALUE: i32 = 10008;
/// `kCGLBadMatch`.
pub const BAD_MATCH: i32 = 10009;
/// `kCGLBadEnumeration`.
pub const BAD_ENUMERATION: i32 = 10010;
/// `kCGLBadOffScreen`.
pub const BAD_OFF_SCREEN: i32 = 10011;
/// `kCGLBadFullScreen`.
pub const BAD_FULL_SCREEN: i32 = 10012;
/// `kCGLBadWindow`.
pub const BAD_WINDOW: i32 = 10013;
/// `kCGLBadAddress`.
pub const BAD_ADDRESS: i32 = 10014;
/// `kCGLBadCodeModule`.
pub const BAD_CODE_MODULE: i32 = 10015;
/// `kCGLBadAlloc`.
pub const BAD_ALLOC: i32 = 10016;
/// `kCGLBadConnection`.
pub const BAD_CONNECTION: i32 = 10017;

/// The error kind a CGL error code stands for; `None` for no error.
pub open spec fn spec_error_kind(code: i32) -> Option<ErrorKind> {
    if code == NO_ERROR {
        None
    } else if code == BAD_ATTRIBUTE || code == BAD_VALUE || code == BAD_ENUMERATION {
        Some(ErrorKind::BadAttribute)
    } else if code == BAD_PROPERTY {
        Some(ErrorKind::BadParameter)
    } else if code == BAD_PIXEL_FORMAT {
        Some(ErrorKind::BadConfig)
    } else if code == BAD_CONTEXT {
        Some(ErrorKind::BadContext)
    } else if code == BAD_DRAWABLE || code == BAD_OFF_SCREEN {
        Some(ErrorKind::BadSurface)
    } else if code == BAD_DISPLAY {
        Some(ErrorKind::BadDisplay)
    } else if code == BAD_STATE {
        Some(ErrorKind::BadContextState)
    } else if code == BAD_MATCH {
        Some(ErrorKind::BadMatch)
    } else if code == BAD_WINDOW {
        Some(ErrorKind::BadNativeWindow)
    } else if code == BAD_ADDRESS {
        Some(ErrorKind::BadAccess)
    } else if code == BAD_ALLOC {
        Some(ErrorKind::OutOfMemory)
    } else {
        Some(ErrorKind::Misc)
    }
}

/// Turn a CGL error code into a result; an error carries the code and `description`, the text
/// `CGLErrorString` gives for it.
pub fn check_error(code: i32, description: String) -> (r: Result<(), Error>)
    ensures
        r is Ok <==> code == NO_ERROR,
        r matches Err(e) ==> spec_error_kind(code) == Some(e.kind) && e.raw_code == Some(
            code as i64,
        ) && e.raw_os_message == Some(description),
{
    let kind = if code == NO_ERROR {
        return Ok(());
    } else if code == BAD_ATTRIBUTE || code == BAD_VALUE || code == BAD_ENUMERATION {
        ErrorKind::BadAttribute
    } else if code == BAD_PROPERTY {
        ErrorKind::BadParameter
    } else if code == BAD_PIXEL_FORMAT {
        ErrorKind::BadConfig
    } else if code == BAD_CONTEXT {
        ErrorKind::BadContext
    } else if code == BAD_DRAWABLE || code == BAD_OFF_SCREEN {
        ErrorKind::BadSurface
    } else if code == BAD_DISPLAY {
        ErrorKind::BadDisplay
    } else if code == BAD_STATE {
        ErrorKind::BadContextState
    } else if code == BAD_MATCH {
        ErrorKind::BadMatch
    } else if code == BAD_WINDOW {
        ErrorKind::BadNativeWindow
    } else if code == BAD_ADDRESS {
        ErrorKind::BadAccess
    } else if code == BAD_ALLOC {
        ErrorKind::OutOfMemory
    } else {
        ErrorKind::Misc
    };
    Err(Error::new(Some(code as i64), Some(description), kind))
}

/// `NSOpenGLPFATripleBuffer`.
pub const PFA_TRIPLE_BUFFER: u32 = 3;
/// `NSOpenGLPFADoubleBuffer`.
pub const PFA_DOUBLE_BUFFER: u32 = 5;
/// `NSOpenGLPFAStereo`.
pub const PFA_STEREO: u32 = 6;
/// `NSOpenGLPFAColorSize`.
pub const PFA_COLOR_SIZE: u32 = 8;
/// `NSOpenGLPFAAlphaSize`.
pub const PFA_ALPHA_SIZE: u32 = 11;
/// `NSOpenGLPFADepthSize`.
pub const PFA_DEPTH_SIZE: u32 = 12;
/// `NSOpenGLPFAStencilSize`.
pub const PFA_STENCIL_SIZE: u32 = 13;
/// `NSOpenGLPFAMinimumPolicy`.
pub const PFA_MINIMUM_POLICY: u32 = 51;
/// `NSOpenGLPFASampleBuffers`.
pub const PFA_SAMPLE_BUFFERS: u32 = 55;
/// `NSOpenGLPFASamples`.
pub const PFA_SAMPLES: u32 = 56;
/// `NSOpenGLPFAColorFloat`.
pub const PFA_COLOR_FLOAT: u32 = 58;
/// `NSOpenGLPFAMultisample`.
pub const PFA_MULTISAMPLE: u32 = 59;
/// `NSOpenGLPFAAccelerated`.
pub const PFA_ACCELERATED: u32 = 73;
/// `NSOpenGLPFAAllowOfflineRenderers`.
pub const PFA_ALLOW_OFFLINE_RENDERERS: u32 = 96;
/// `NSOpenGLPFAOpenGLProfile`.
pub const PFA_OPENGL_PROFILE: u32 = 99;
/// `NSOpenGLProfileVersionLegacy`.
pub const PROFILE_VERSION_LEGACY: u32 = 0x1000;
/// `NSOpenGLProfileVersion3_2Core`.
pub const PROFILE_VERSION_3_2_CORE: u32 = 0x3200;
/// `NSOpenGLProfileVersion4_1Core`.
pub const PROFILE_VERSION_4_1_CORE: u32 = 0x4100;

/// The sizes part of the pixel format attributes: minimum policy, offline renderers, then the
/// color (the sum of the components and alpha), alpha, depth and stencil sizes.
pub open spec fn spec_attributes_sizes(t: ConfigTemplate) -> Seq<u32> {
    let color = match t.color_buffer_type {
        ColorBufferType::Rgb { r_size, g_size, b_size } => (r_size + g_size + b_size
            + t.alpha_size) as u32,
        ColorBufferType::Luminance(_) => 0,
    };
    seq![
        PFA_MINIMUM_POLICY,
        PFA_ALLOW_OFFLINE_RENDERERS,
        PFA_COLOR_SIZE,
        color,
        PFA_ALPHA_SIZE,
        t.alpha_size as u32,
        PFA_DEPTH_SIZE,
        t.depth_size as u32,
        PFA_STENCIL_SIZE,
        t.stencil_size as u32,
    ]
}

/// The optional requests of the pixel format attributes: float colors, multisampling, double
/// buffering, acceleration and stereo.
pub open spec fn spec_attributes_options(t: ConfigTemplate) -> Seq<u32> {
    opt_attr(t.float_pixels, PFA_COLOR_FLOAT) + samples_part(t.num_samples) + opt_attr(
        !t.single_buffering,
        PFA_DOUBLE_BUFFER,
    ) + opt_attr(t.hardware_accelerated == Some(true), PFA_ACCELERATED) + opt_attr(
        t.stereoscopy == Some(true),
        PFA_STEREO,
    )
}

/// The pixel format attributes of a template, up to the profile.
pub open spec fn spec_attributes_head(t: ConfigTemplate) -> Seq<u32> {
    spec_attributes_sizes(t) + spec_attributes_options(t)
}

/// Whether the sizes of a color template fit the one byte they are summed in.
pub open spec fn color_sum_fits(t: ConfigTemplate) -> bool {
    match t.color_buffer_type {
        ColorBufferType::Rgb { r_size, g_size, b_size } => r_size + g_size + b_size + t.alpha_size
            <= u8::MAX,
        ColorBufferType::Luminance(_) => true,
    }
}

/// `seq![v]` when `cond` holds, else nothing.
pub open spec fn opt_attr(cond: bool, v: u32) -> Seq<u32> {
    if cond {
        seq![v]
    } else {
        seq![]
    }
}

/// The multisampling part of the pixel format attributes.
pub open spec fn samples_part(num_samples: Option<u8>) -> Seq<u32> {
    match num_samples {
        Some(n) => seq![PFA_MULTISAMPLE, PFA_SAMPLE_BUFFERS, 1u32, PFA_SAMPLES, n as u32],
        None => seq![],
    }
}

fn push_if(attrs: &mut Vec<u32>, cond: bool, v: u32)
    ensures
        final(attrs)@ == old(attrs)@ + opt_attr(cond, v),
{
    if cond {
        attrs.push(v);
    }
    assert(attrs@ =~= old(attrs)@ + opt_attr(cond, v));
}

fn push_samples(attrs: &mut Vec<u32>, num_samples: Option<u8>)
    ensures
        final(attrs)@ == old(attrs)@ + samples_part(num_samples),
{
    match num_samples {
        Some(n) => {
            attrs.push(PFA_MULTISAMPLE);
            attrs.push(PFA_SAMPLE_BUFFERS);
            attrs.push(1);
            attrs.push(PFA_SAMPLES);
            attrs.push(n as u32);
        },
        None => {},
    }
    assert(attrs@ =~= old(attrs)@ + samples_part(num_samples));
}

/// Push the optional requests of the template.
fn push_options(attrs: &mut Vec<u32>, t: &ConfigTemplate)
    ensures
        final(attrs)@ == old(attrs)@ + spec_attributes_options(*t),
{
    let ghost start = attrs@;
    push_if(attrs, t.float_pixels, PFA_COLOR_FLOAT);
    push_samples(attrs, t.num_samples);
    push_if(attrs, !t.single_buffering, PFA_DOUBLE_BUFFER);
    let accelerated = match t.hardware_accelerated {
        Some(true) => true,
        _ => false,
    };
    push_if(attrs, accelerated, PFA_ACCELERATED);
    let stereo = match t.stereoscopy {
        Some(true) => true,
        _ => false,
    };
    push_if(attrs, stereo, PFA_STEREO);
    assert(attrs@ =~= start + spec_attributes_options(*t));
}

/// The zero terminated pixel format attribute list of a template and the position of the
/// profile in it, which holds the 4.1 core profile, the first one tried.
///
/// CGL has no luminance buffers. The color size is the sum of the three components and alpha.
pub fn pixel_format_attributes(template: &ConfigTemplate) -> (r: Result<(Vec<u32>, usize), Error>)
    requires
        color_sum_fits(*template),
    ensures
        r is Err <==> template.color_buffer_type is Luminance,
        r matches Err(e) ==> e.kind == ErrorKind::NotSupported(
            "luminance buffers are not supported with CGL",
        ),
        r matches Ok((attrs, pos)) ==> {
            &&& attrs@ == spec_attributes_head(*template) + seq![
                PFA_OPENGL_PROFILE,
                PROFILE_VERSION_4_1_CORE,
                0u32,
            ]
            &&& pos == spec_attributes_head(*template).len() + 1
        },
{
    let mut attrs: Vec<u32> = Vec::new();
    attrs.push(PFA_MINIMUM_POLICY);
    attrs.push(PFA_ALLOW_OFFLINE_RENDERERS);
    match template.color_buffer_type {
        ColorBufferType::Rgb { r_size, g_size, b_size } => {
            attrs.push(PFA_COLOR_SIZE);
            attrs.push((r_size + g_size + b_size + template.alpha_size) as u32);
        },
        _ => {
            return Err(
                Error::from_kind(
                    ErrorKind::NotSupported("luminance buffers are not supported with CGL"),
                ),
            );
        },
    }
    attrs.push(PFA_ALPHA_SIZE);
    attrs.push(template.alpha_size as u32);
    attrs.push(PFA_DEPTH_SIZE);
    attrs.push(template.depth_size as u32);
    attrs.push(PFA_STENCIL_SIZE);
    attrs.push(template.stencil_size as u32);
    assert(attrs@ =~= spec_attributes_sizes(*template));
    push_options(&mut attrs, template);
    attrs.push(PFA_OPENGL_PROFILE);
    let pos = attrs.len();
    attrs.push(PROFILE_VERSION_4_1_CORE);
    attrs.push(0);
    Ok((attrs, pos))
}

/// Whether a sample count can be told from the flags of a pixel format list: it is none of
/// their values.
pub open spec fn samples_apart_from_flags(num_samples: Option<u8>) -> bool {
    match num_samples {
        Some(n) => n as u32 != PFA_COLOR_FLOAT && n as u32 != PFA_MULTISAMPLE && n as u32
            != PFA_DOUBLE_BUFFER && n as u32 != PFA_ACCELERATED && n as u32 != PFA_STEREO,
        None => true,
    }
}

proof fn lemma_opt_attr_contains(cond: bool, v: u32, x: u32)
    ensures
        opt_attr(cond, v).contains(x) <==> (cond && v == x),
{
    if cond {
        assert(opt_attr(cond, v)[0] == v);
    }
}

/// The pixel format list asks for float colors exactly when the template does, for
/// multisampling exactly when it gives a number of samples, for double buffering exactly when
/// it does not ask for single buffering, for acceleration exactly when it prefers hardware
/// acceleration, and for stereo exactly when it asks for stereoscopy. (A sample count equal to
/// one of those flags could not be told from it, so such counts are left out.)
pub proof fn lemma_pixel_format_requests(t: ConfigTemplate)
    requires
        samples_apart_from_flags(t.num_samples),
    ensures
        spec_attributes_options(t).contains(PFA_COLOR_FLOAT) <==> t.float_pixels,
        spec_attributes_options(t).contains(PFA_MULTISAMPLE) <==> t.num_samples is Some,
        spec_attributes_options(t).contains(PFA_DOUBLE_BUFFER) <==> !t.single_buffering,
        spec_attributes_options(t).contains(PFA_ACCELERATED) <==> t.hardware_accelerated == Some(
            true,
        ),
        spec_attributes_options(t).contains(PFA_STEREO) <==> t.stereoscopy == Some(true),
{
    broadcast use vstd::seq_lib::lemma_seq_concat_contains_all_elements;

    let sp = samples_part(t.num_samples);
    assert forall|x: u32|
        x == PFA_COLOR_FLOAT || x == PFA_MULTISAMPLE || x == PFA_DOUBLE_BUFFER || x
            == PFA_ACCELERATED || x == PFA_STEREO implies (#[trigger] sp.contains(x) <==> (x
        == PFA_MULTISAMPLE && t.num_samples is Some)) by {
        match t.num_samples {
            Some(n) => {
                if sp.contains(x) {
                    let i = choose|i: int| 0 <= i < sp.len() && sp[i] == x;
                    assert(i == 0 || i == 1 || i == 2 || i == 3 || i == 4);
                }
                if x == PFA_MULTISAMPLE {
                    assert(sp[0] == x);
                }
            },
            None => {},
        }
    }
    let xs = seq![PFA_COLOR_FLOAT, PFA_MULTISAMPLE, PFA_DOUBLE_BUFFER, PFA_ACCELERATED, PFA_STEREO];
    assert forall|j: int| 0 <= j < 5 implies {
        let x = #[trigger] xs[j];
        &&& opt_attr(t.float_pixels, PFA_COLOR_FLOAT).contains(x) <==> (t.float_pixels && x
            == PFA_COLOR_FLOAT)
        &&& opt_attr(!t.single_buffering, PFA_DOUBLE_BUFFER).contains(x) <==> (!t.single_buffering
            && x == PFA_DOUBLE_BUFFER)
        &&& opt_attr(t.hardware_accelerated == Some(true), PFA_ACCELERATED).contains(x) <==> (
        t.hardware_accelerated == Some(true) && x == PFA_ACCELERATED)
        &&& opt_attr(t.stereoscopy == Some(true), PFA_STEREO).contains(x) <==> (t.stereoscopy
            == Some(true) && x == PFA_STEREO)
    } by {
        let x = xs[j];
        lemma_opt_attr_contains(t.float_pixels, PFA_COLOR_FLOAT, x);
        lemma_opt_attr_contains(!t.single_buffering, PFA_DOUBLE_BUFFER, x);
        lemma_opt_attr_contains(t.hardware_accelerated == Some(true), PFA_ACCELERATED, x);
        lemma_opt_attr_contains(t.stereoscopy == Some(true), PFA_STEREO, x);
    }
    assert(xs[0] == PFA_COLOR_FLOAT && xs[1] == PFA_MULTISAMPLE && xs[2] == PFA_DOUBLE_BUFFER
        && xs[3] == PFA_ACCELERATED && xs[4] == PFA_STEREO);
}

/// The pixel format list starts with the minimum policy and offline renderers, then asks for
/// the color size (the three components and alpha together), and for the template's alpha,
/// depth and stencil sizes, each right after its name.
pub proof fn lemma_pixel_format_sizes(t: ConfigTemplate)
    requires
        t.color_buffer_type matches ColorBufferType::Rgb { r_size, g_size, b_size },
        color_sum_fits(t),
    ensures
        ({
            let l = spec_attributes_head(t);
            &&& l[0] == PFA_MINIMUM_POLICY && l[1] == PFA_ALLOW_OFFLINE_RENDERERS
            &&& l[2] == PFA_COLOR_SIZE && l[3] == (match t.color_buffer_type {
                ColorBufferType::Rgb { r_size, g_size, b_size } => r_size + g_size + b_size
                    + t.alpha_size,
                ColorBufferType::Luminance(_) => 0,
            })
            &&& l[4] == PFA_ALPHA_SIZE && l[5] == t.alpha_size
            &&& l[6] == PFA_DEPTH_SIZE && l[7] == t.depth_size
            &&& l[8] == PFA_STENCIL_SIZE && l[9] == t.stencil_size
        }),
{
    let l = spec_attributes_head(t);
    assert(spec_attributes_sizes(t).len() == 10);
    assert(forall|i: int| 0 <= i < 10 ==> l[i] == spec_attributes_sizes(t)[i]);
}

/// The pixel format attribute list ends with zero, and the profile stands right before it.
pub proof fn lemma_pixel_format_attributes_terminated(t: ConfigTemplate)
    ensures
        ({
            let a = spec_attributes_head(t) + seq![PFA_OPENGL_PROFILE, PROFILE_VERSION_4_1_CORE, 0u32];
            &&& a.last() == 0
            &&& a[a.len() - 3] == PFA_OPENGL_PROFILE
            &&& a[spec_attributes_head(t).len() + 1int] == PROFILE_VERSION_4_1_CORE
        }),
{
}

/// The profiles a pixel format is asked for, newest first; the first that gives a pixel format
/// is taken.
pub fn profiles_to_try() -> (r: Vec<u32>)
    ensures
        r@ == seq![PROFILE_VERSION_4_1_CORE, PROFILE_VERSION_3_2_CORE, PROFILE_VERSION_LEGACY],
{
    let mut r: Vec<u32> = Vec::new();
    r.push(PROFILE_VERSION_4_1_CORE);
    r.push(PROFILE_VERSION_3_2_CORE);
    r.push(PROFILE_VERSION_LEGACY);
    assert(r@ =~= seq![PROFILE_VERSION_4_1_CORE, PROFILE_VERSION_3_2_CORE, PROFILE_VERSION_LEGACY]);
    r
}

/// The first pixel format of the tries, in order; none is a bad config.
pub fn first_pixel_format(tries: &Vec<Option<usize>>) -> (r: Result<usize, Error>)
    ensures
        r is Ok <==> exists|i: int| 0 <= i < tries@.len() && tries@[i] is Some,
        r matches Ok(p) ==> exists|i: int|
            0 <= i < tries@.len() && tries@[i] == Some(p) && forall|j: int|
                0 <= j < i ==> tries@[j] is None,
        r matches Err(e) ==> e.kind == ErrorKind::BadConfig,
{
    let n = tries.len();
    for i in 0..n
        invariant
            n == tries@.len(),
            forall|j: int| 0 <= j < i ==> tries@[j] is None,
    {
        match tries[i] {
            Some(p) => {
                return Ok(p);
            },
            None => {},
        }
    }
    Err(Error::from_kind(ErrorKind::BadConfig))
}

/// `x / 3` rounded toward zero, as Rust divides.
pub open spec fn div3_toward_zero(x: int) -> int {
    if x >= 0 {
        x / 3
    } else {
        -((-x) / 3)
    }
}

fn div3(x: i32) -> (r: i32)
    ensures
        r == div3_toward_zero(x as int),
{
    if x >= 0 {
        x / 3
    } else if x == i32::MIN {
        -715827882
    } else {
        -((-x) / 3)
    }
}

/// A CGL pixel format, by the values it reports for its attributes on the main screen.
#[derive(Debug, Clone, Copy, PartialEq, Eq)]
pub struct CglConfig {
    /// `NSOpenGLPFAColorSize`.
    pub color_size: i32,
    /// `NSOpenGLPFAAlphaSize`.
    pub alpha_size: i32,
    /// `NSOpenGLPFAColorFloat`.
    pub color_float: i32,
    /// `NSOpenGLPFAAccelerated`.
    pub accelerated: i32,
    /// `NSOpenGLPFADepthSize`.
    pub depth_size: i32,
    /// `NSOpenGLPFAStencilSize`.
    pub stencil_size: i32,
    /// `NSOpenGLPFASamples`.
    pub samples: i32,
    /// `NSOpenGLPFATripleBuffer`.
    pub triple_buffer: i32,
    /// `NSOpenGLPFADoubleBuffer`.
    pub double_buffer: i32,
    /// Whether the template asked for transparency.
    pub transparency: bool,
}

/// The color buffer a CGL pixel format reports: the color size without alpha, split in
/// thirds, green taking what the division leaves over.
pub open spec fn spec_cgl_color_buffer(c: CglConfig) -> ColorBufferType {
    let color = c.color_size.wrapping_sub((c.alpha_size as u8) as i32);
    let third = div3_toward_zero(color as int);
    ColorBufferType::Rgb {
        r_size: third as u8,
        g_size: color.wrapping_sub((third as u8) as i32).wrapping_sub((third as u8) as i32) as u8,
        b_size: third as u8,
    }
}

impl CglConfig {
    /// Neither triple nor double buffered.
    pub fn is_single_buffered(&self) -> (r: bool)
        ensures
            r == (self.triple_buffer == 0 && self.double_buffer == 0),
    {
        self.triple_buffer == 0 && self.double_buffer == 0
    }
}

impl GlConfig for CglConfig {
    fn color_buffer_type(&self) -> (r: Option<ColorBufferType>)
        ensures
            r == Some(spec_cgl_color_buffer(*self)),
    {
        let color = self.color_size.wrapping_sub(self.alpha_size() as i32);
        let third = div3(color);
        let r_size = #[verifier::truncate] (third as u8);
        let b_size = #[verifier::truncate] (third as u8);
        let g_size = color.wrapping_sub(r_size as i32).wrapping_sub(b_size as i32) as u8;
        Some(ColorBufferType::Rgb { r_size, g_size, b_size })
    }

    fn float_pixels(&self) -> (r: bool)
        ensures
            r == (self.color_float != 0),
    {
        self.color_float != 0
    }

    fn alpha_size(&self) -> (r: u8)
        ensures
            r == self.alpha_size as u8,
    {
        self.alpha_size as u8
    }

    fn depth_size(&self) -> (r: u8)
        ensures
            r == self.depth_size as u8,
    {
        self.depth_size as u8
    }

    fn stencil_size(&self) -> (r: u8)
        ensures
            r == self.stencil_size as u8,
    {
        self.stencil_size as u8
    }

    fn num_samples(&self) -> (r: u8)
        ensures
            r == self.samples as u8,
    {
        self.samples as u8
    }

    fn srgb_capable(&self) -> (r: bool)
        ensures
            r,
    {
        true
    }

    fn supports_transparency(&self) -> (r: Option<bool>)
        ensures
            r == Some(self.transparency),
    {
        Some(self.transparency)
    }

    fn hardware_accelerated(&self) -> (r: bool)
        ensures
            r == (self.accelerated != 0),
    {
        self.accelerated != 0
    }

    fn config_surface_types(&self) -> (r: ConfigSurfaceTypes)
        ensures
            r.bits == 1,
    {
        ConfigSurfaceTypes::window()
    }

    fn api(&self) -> (r: Api)
        ensures
            r.bits == 1,
    {
        Api::opengl()
    }
}

/// Check a context request against what CGL offers: no OpenGL ES, no robustness.
pub fn check_context_request(api: Option<ContextApi>, robustness: Robustness) -> (r: Result<
    (),
    Error,
>)
    ensures
        (api matches Some(ContextApi::Gles(_))) ==> (r matches Err(e) && e.kind
            == ErrorKind::NotSupported("gles is not supported with CGL")),
        !(api matches Some(ContextApi::Gles(_))) && robustness != Robustness::NotRobust ==> (
        r matches Err(e) && e.kind == ErrorKind::NotSupported(
            "robustness is not supported with CGL",
        )),
        r is Ok <==> !(api matches Some(ContextApi::Gles(_))) && robustness
            == Robustness::NotRobust,
{
    match api {
        Some(ContextApi::Gles(_)) => {
            return Err(Error::from_kind(ErrorKind::NotSupported("gles is not supported with CGL")));
        },
        _ => {},
    }
    match robustness {
        Robustness::NotRobust => Ok(()),
        _ => Err(Error::from_kind(ErrorKind::NotSupported("robustness is not supported with CGL"))),
    }
}

/// The value of `NSOpenGLCPSwapInterval` for a swap interval: CGL only waits for one blank or
/// none.
pub fn swap_interval_value(interval: SwapInterval) -> (r: i32)
    ensures
        interval is DontWait ==> r == 0,
        interval is Wait ==> r == 1,
{
    match interval {
        SwapInterval::DontWait => 0,
        SwapInterval::Wait(_) => 1,
    }
}

/// A CGL display is made on an AppKit display only.
pub fn check_display_handle(handle: NativeDisplayHandle) -> (r: Result<(), Error>)
    ensures
        r is Ok <==> handle is AppKit,
        r matches Err(e) ==> e.kind == ErrorKind::NotSupported(
            "provided native display is not supported",
        ),
{
    match handle {
        NativeDisplayHandle::AppKit => Ok(()),
        _ => Err(Error::from_kind(ErrorKind::NotSupported("provided native display is not supported"))),
    }
}

/// The features of every CGL display: multisampled and float pixel formats, sRGB framebuffers
/// and swap control.
pub fn supported_features() -> (r: DisplayFeatures)
    ensures
        r.multisampling_pixel_formats && r.float_pixel_format && r.srgb_framebuffers
            && r.swap_control,
        !r.create_es_context && !r.context_robustness && !r.context_release_behavior
            && !r.context_no_error,
{
    DisplayFeatures {
        multisampling_pixel_formats: true,
        float_pixel_format: true,
        srgb_framebuffers: true,
        create_es_context: false,
        swap_control: true,
        context_robustness: false,
        context_release_behavior: false,
        context_no_error: false,
    }
}

/// CGL has no pixmap surfaces.
pub fn create_pixmap_surface() -> (r: Result<(), Error>)
    ensures
        r matches Err(e) && e.kind == ErrorKind::NotSupported("pixmaps are not supported with CGL"),
{
    Err(Error::from_kind(ErrorKind::NotSupported("pixmaps are not supported with CGL")))
}

/// CGL has no pbuffer surfaces.
pub fn create_pbuffer_surface() -> (r: Result<(), Error>)
    ensures
        r matches Err(e) && e.kind == ErrorKind::NotSupported("pbuffers are not supported with CGL"),
{
    Err(Error::from_kind(ErrorKind::NotSupported("pbuffers are not supported with CGL")))
}

/// The view a window surface is made on: an AppKit window's view, which must exist and be in a
/// window (`window` is the `NSWindow` of the view, zero for none).
pub fn window_surface_view(handle: NativeWindowHandle, window: usize) -> (r: Result<usize, Error>)
    ensures
        !(handle is AppKit) ==> (r matches Err(e) && e.kind == ErrorKind::NotSupported(
            "provided native window is not supported",
        )),
        handle matches NativeWindowHandle::AppKit { ns_view } ==> {
            &&& (ns_view == 0 ==> (r matches Err(e) && e.kind == ErrorKind::NotSupported(
                "ns_view of provided native window is nil",
            )))
            &&& (ns_view != 0 && window == 0 ==> (r matches Err(e) && e.kind
                == ErrorKind::NotSupported("ns_window of provided native window is nil")))
            &&& (ns_view != 0 && window != 0 ==> r == Ok::<usize, Error>(ns_view))
        },
{
    let ns_view = match handle {
        NativeWindowHandle::AppKit { ns_view } => ns_view,
        _ => {
            return Err(
                Error::from_kind(ErrorKind::NotSupported("provided native window is not supported")),
            );
        },
    };
    if ns_view == 0 {
        return Err(
            Error::from_kind(ErrorKind::NotSupported("ns_view of provided native window is nil")),
        );
    }
    if window == 0 {
        return Err(
            Error::from_kind(ErrorKind::NotSupported("ns_window of provided native window is nil")),
        );
    }
    Ok(ns_view)
}

/// CGL cannot make a context current with distinct draw and read surfaces.
pub fn make_current_draw_read() -> (r: ErrorKind)
    ensures
        r == ErrorKind::NotSupported("make current draw read isn't supported with CGL"),
{
    ErrorKind::NotSupported("make current draw read isn't supported with CGL")
}

/// The Api of a CGL context: always OpenGL.
pub fn context_api() -> (r: ContextApi)
    ensures
        r == ContextApi::OpenGl(None),
{
    ContextApi::OpenGl(None)
}

} // verus!
