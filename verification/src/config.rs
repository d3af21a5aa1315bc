//! Config templates, the flag sets they carry, and the traits of a decoded config.
use vstd::prelude::*;

verus! {

/// The types of the surface supported by the config, as a set of bits.
#[derive(Debug, Clone, Copy, PartialEq, Eq)]
pub struct ConfigSurfaceTypes {
    /// The raw bits: `1` window, `2` pixmap, `4` pbuffer.
    pub bits: u8,
}

impl ConfigSurfaceTypes {
    /// Context must support windows.
    pub fn window() -> (r: ConfigSurfaceTypes)
        ensures
            r.bits == 1,
    {
        ConfigSurfaceTypes { bits: 1 }
    }

    /// Context must support pixmaps.
    pub fn pixmap() -> (r: ConfigSurfaceTypes)
        ensures
            r.bits == 2,
    {
        ConfigSurfaceTypes { bits: 2 }
    }

    /// Context must support pbuffers.
    pub fn pbuffer() -> (r: ConfigSurfaceTypes)
        ensures
            r.bits == 4,
    {
        ConfigSurfaceTypes { bits: 4 }
    }

    /// Whether every bit of `other` is set in `self`.
    pub open spec fn spec_contains(self, other: ConfigSurfaceTypes) -> bool {
        self.bits & other.bits == other.bits
    }

    /// The empty set.
    pub fn empty() -> (r: Self)
        ensures
            r.bits == 0,
    {
        ConfigSurfaceTypes { bits: 0 }
    }

    /// Whether every bit of `other` is set in `self`.
    pub fn contains(&self, other: ConfigSurfaceTypes) -> (r: bool)
        ensures
            r == self.spec_contains(other),
    {
        self.bits & other.bits == other.bits
    }

    /// Set the bits of `other` in `self`.
    pub fn insert(&mut self, other: ConfigSurfaceTypes)
        ensures
            final(self).bits == old(self).bits | other.bits,
    {
        self.bits = self.bits | other.bits;
    }
}

/// The Api supported by the config, as a set of bits.
#[derive(Debug, Clone, Copy, PartialEq, Eq)]
pub struct Api {
    /// The raw bits: `1` OpenGL, `2` GLES1, `4` GLES2, `8` GLES3.
    pub bits: u8,
}

impl Api {
    /// Context supports OpenGL API.
    pub fn opengl() -> (r: Api)
        ensures
            r.bits == 1,
    {
        Api { bits: 1 }
    }

    /// Context supports OpenGL ES 1 API.
    pub fn gles1() -> (r: Api)
        ensures
            r.bits == 2,
    {
        Api { bits: 2 }
    }

    /// Context supports OpenGL ES 2 API.
    pub fn gles2() -> (r: Api)
        ensures
            r.bits == 4,
    {
        Api { bits: 4 }
    }

    /// Context supports OpenGL ES 3 API.
    pub fn gles3() -> (r: Api)
        ensures
            r.bits == 8,
    {
        Api { bits: 8 }
    }

    /// Whether every bit of `other` is set in `self`.
    pub open spec fn spec_contains(self, other: Api) -> bool {
        self.bits & other.bits == other.bits
    }

    /// The empty set.
    pub fn empty() -> (r: Self)
        ensures
            r.bits == 0,
    {
        Api { bits: 0 }
    }

    /// Whether every bit of `other` is set in `self`.
    pub fn contains(&self, other: Api) -> (r: bool)
        ensures
            r == self.spec_contains(other),
    {
        self.bits & other.bits == other.bits
    }

    /// Set the bits of `other` in `self`.
    pub fn insert(&mut self, other: Api)
        ensures
            final(self).bits == old(self).bits | other.bits,
    {
        self.bits = self.bits | other.bits;
    }
}

/// The buffer type baked by the config.
#[derive(Debug, Clone, Copy, PartialEq, Eq)]
pub enum ColorBufferType {
    /// The backing buffer is using RGB format.
    Rgb {
        /// Size of the red component in bits.
        r_size: u8,
        /// Size of the green component in bits.
        g_size: u8,
        /// Size of the blue component in bits.
        b_size: u8,
    },
    /// The backing buffer is using Luminance.
    Luminance(u8),
}

/// The native window a config should be able to render into, holding the values the config
/// selection reads.
#[derive(Debug, Clone, Copy, PartialEq, Eq)]
pub enum NativeWindowHandle {
    /// An Xlib window and the id of its visual (`0` when unknown).
    Xlib { window: u64, visual_id: u64 },
    /// An Xcb window and the id of its visual (`0` when unknown).
    Xcb { window: u32, visual_id: u32 },
    /// A Wayland surface, by its address.
    Wayland { surface: usize },
    /// An Android `ANativeWindow`, by its address.
    AndroidNdk { a_native_window: usize },
    /// A Win32 window handle and the module instance of its class (`0` when unknown).
    Win32 { hwnd: isize, hinstance: isize },
    /// A GBM surface, by its address.
    Gbm { gbm_surface: usize },
    /// An AppKit `NSView`, by its address.
    AppKit { ns_view: usize },
    /// Any other kind of window handle.
    Other,
}

/// The native display a platform display is created on, holding the values the display
/// selection reads.
#[derive(Debug, Clone, Copy, PartialEq, Eq)]
pub enum NativeDisplayHandle {
    /// An Xlib display connection (its address, `0` for the default one) and screen.
    Xlib { display: usize, screen: i32 },
    /// An Xcb connection (its address, `0` for the default one) and screen.
    Xcb { connection: usize, screen: i32 },
    /// A Wayland display, by its address.
    Wayland { display: usize },
    /// A GBM device, by its address.
    Gbm { gbm_device: usize },
    /// The Android display.
    Android,
    /// The Windows display.
    Windows,
    /// The AppKit display.
    AppKit,
    /// Any other kind of display handle.
    Other,
}

/// Surface kinds put together from three flags: the window bit (1) is set exactly for a window,
/// the pixmap bit (2) exactly for a pixmap, the pbuffer bit (4) exactly for a pbuffer, and no
/// other bit is set.
pub proof fn lemma_surface_kind_bits(window: bool, pixmap: bool, pbuffer: bool)
    ensures
        ({
            let s = (if window { 1u8 } else { 0u8 }) | (if pbuffer { 4u8 } else { 0u8 }) | (if pixmap {
                2u8
            } else {
                0u8
            });
            &&& (s & 1u8 != 0 <==> window)
            &&& (s & 2u8 != 0 <==> pixmap)
            &&& (s & 4u8 != 0 <==> pbuffer)
            &&& s < 8
        }),
        ({
            let s = (if window { 1u8 } else { 0u8 }) | (if pixmap { 2u8 } else { 0u8 });
            &&& (s & 1u8 != 0 <==> window)
            &&& (s & 2u8 != 0 <==> pixmap)
            &&& s & 4u8 == 0
            &&& s < 4
        }),
{
    let s = (if window { 1u8 } else { 0u8 }) | (if pbuffer { 4u8 } else { 0u8 }) | (if pixmap {
        2u8
    } else {
        0u8
    });
    let w: u8 = if window { 1u8 } else { 0u8 };
    let x: u8 = if pixmap { 2u8 } else { 0u8 };
    let p: u8 = if pbuffer { 4u8 } else { 0u8 };
    assert(((w | p | x) & 1u8 != 0 <==> w == 1) && ((w | p | x) & 2u8 != 0 <==> x == 2) && ((w | p
        | x) & 4u8 != 0 <==> p == 4) && (w | p | x) < 8 && ((w | x) & 1u8 != 0 <==> w == 1) && ((w
        | x) & 2u8 != 0 <==> x == 2) && (w | x) & 4u8 == 0 && (w | x) < 4) by (bit_vector)
        requires
            w == 0 || w == 1,
            x == 0 || x == 2,
            p == 0 || p == 4,
    ;
}

/// The context configuration template that is used to find desired config.
#[derive(Debug, Clone, Copy, PartialEq, Eq)]
pub struct ConfigTemplate {
    /// The type of the backing buffer and ancillary buffers.
    pub color_buffer_type: ColorBufferType,
    /// Bits of alpha in the color buffer.
    pub alpha_size: u8,
    /// Bits of depth in the depth buffer.
    pub depth_size: u8,
    /// Bits of stencil in the stencil buffer.
    pub stencil_size: u8,
    /// The amount of samples in multisample buffer.
    pub num_samples: Option<u8>,
    /// The minimum swap interval supported by the configuration.
    pub min_swap_interval: Option<u16>,
    /// The maximum swap interval supported by the configuration.
    pub max_swap_interval: Option<u16>,
    /// The types of the surfaces supported by the configuration.
    pub config_surface_types: ConfigSurfaceTypes,
    /// The rendering Api's supported by the configuration.
    pub api: Option<Api>,
    /// The config should support transparency.
    pub transparency: bool,
    /// The config should prefer single buffering.
    pub single_buffering: bool,
    /// The config supports stereoscopy.
    pub stereoscopy: Option<bool>,
    /// The config uses floating pixels.
    pub float_pixels: bool,
    /// The maximum width of the pbuffer.
    pub max_pbuffer_width: Option<u32>,
    /// The config should prefer hardware accelerated formats.
    pub hardware_accelerated: Option<bool>,
    /// The maximum height of the pbuffer.
    pub max_pbuffer_height: Option<u32>,
    /// The native window config should support rendering into.
    pub native_window: Option<NativeWindowHandle>,
}

/// The template that [`ConfigTemplate::default`] builds.
pub open spec fn default_template() -> ConfigTemplate {
    ConfigTemplate {
        color_buffer_type: ColorBufferType::Rgb { r_size: 8, g_size: 8, b_size: 8 },
        alpha_size: 8,
        depth_size: 0,
        stencil_size: 0,
        num_samples: None,
        min_swap_interval: None,
        max_swap_interval: None,
        config_surface_types: ConfigSurfaceTypes { bits: 1 },
        api: None,
        transparency: false,
        single_buffering: false,
        stereoscopy: None,
        float_pixels: false,
        max_pbuffer_width: None,
        hardware_accelerated: None,
        max_pbuffer_height: None,
        native_window: None,
    }
}

impl Default for ConfigTemplate {
    fn default() -> (r: Self)
        ensures
            r == default_template(),
    {
        ConfigTemplate {
            color_buffer_type: ColorBufferType::Rgb { r_size: 8, g_size: 8, b_size: 8 },
            alpha_size: 8,
            depth_size: 0,
            stencil_size: 0,
            num_samples: None,
            min_swap_interval: None,
            max_swap_interval: None,
            config_surface_types: ConfigSurfaceTypes { bits: 1 },
            api: None,
            transparency: false,
            single_buffering: false,
            stereoscopy: None,
            float_pixels: false,
            max_pbuffer_width: None,
            hardware_accelerated: None,
            max_pbuffer_height: None,
            native_window: None,
        }
    }
}

/// Whether `n` is a power of two.
pub open spec fn is_power_of_two(n: u8) -> bool {
    n == 1 || n == 2 || n == 4 || n == 8 || n == 16 || n == 32 || n == 64 || n == 128
}

/// Builder for the [`ConfigTemplate`].
#[derive(Debug, Clone, Copy, PartialEq, Eq)]
pub struct ConfigTemplateBuilder {
    /// The template being built.
    pub template: ConfigTemplate,
}

impl Default for ConfigTemplateBuilder {
    fn default() -> (r: Self)
        ensures
            r.template == default_template(),
    {
        ConfigTemplateBuilder { template: ConfigTemplate::default() }
    }
}

impl ConfigTemplateBuilder {
    /// Create a new configuration template builder.
    pub fn new() -> (r: Self)
        ensures
            r.template == default_template(),
    {
        ConfigTemplateBuilder::default()
    }

    /// Number of alpha bits in the color buffer. By default `8` is requested.
    pub fn with_alpha_size(self, alpha_size: u8) -> (r: Self)
        ensures
            r.template == (ConfigTemplate { alpha_size, ..self.template }),
    {
        let mut s = self;
        s.template.alpha_size = alpha_size;
        s
    }

    /// Whether the floating pixel formats should be used. By default `false` is requested.
    pub fn with_float_pixels(self, float_pixels: bool) -> (r: Self)
        ensures
            r.template == (ConfigTemplate { float_pixels, ..self.template }),
    {
        let mut s = self;
        s.template.float_pixels = float_pixels;
        s
    }

    /// Number of bits in the stencil buffer.
    pub fn with_stencil_size(self, stencil_size: u8) -> (r: Self)
        ensures
            r.template == (ConfigTemplate { stencil_size, ..self.template }),
    {
        let mut s = self;
        s.template.stencil_size = stencil_size;
        s
    }

    /// Number of bits in the depth buffer.
    pub fn with_depth_size(self, depth_size: u8) -> (r: Self)
        ensures
            r.template == (ConfigTemplate { depth_size, ..self.template }),
    {
        let mut s = self;
        s.template.depth_size = depth_size;
        s
    }

    /// Whether multisampling configurations should be picked. The `num_samples` must be a
    /// power of two.
    pub fn with_multisampling(self, num_samples: u8) -> (r: Self)
        requires
            is_power_of_two(num_samples),
        ensures
            r.template == (ConfigTemplate { num_samples: Some(num_samples), ..self.template }),
    {
        let mut s = self;
        s.template.num_samples = Some(num_samples);
        s
    }

    /// The types of the surfaces that must be supported by the configuration.
    pub fn with_surface_type(self, config_surface_types: ConfigSurfaceTypes) -> (r: Self)
        ensures
            r.template == (ConfigTemplate { config_surface_types, ..self.template }),
    {
        let mut s = self;
        s.template.config_surface_types = config_surface_types;
        s
    }

    /// The type of the color buffer.
    pub fn with_buffer_type(self, color_buffer_type: ColorBufferType) -> (r: Self)
        ensures
            r.template == (ConfigTemplate { color_buffer_type, ..self.template }),
    {
        let mut s = self;
        s.template.color_buffer_type = color_buffer_type;
        s
    }

    /// The set of apis that are supported by configuration.
    pub fn with_api(self, api: Api) -> (r: Self)
        ensures
            r.template == (ConfigTemplate { api: Some(api), ..self.template }),
    {
        let mut s = self;
        s.template.api = Some(api);
        s
    }

    /// Whether the stereo pairs should be present.
    pub fn with_stereoscopy(self, stereoscopy: Option<bool>) -> (r: Self)
        ensures
            r.template == (ConfigTemplate { stereoscopy, ..self.template }),
    {
        let mut s = self;
        s.template.stereoscopy = stereoscopy;
        s
    }

    /// Whether the single buffer should be used.
    pub fn with_single_buffering(self, single_buffering: bool) -> (r: Self)
        ensures
            r.template == (ConfigTemplate { single_buffering, ..self.template }),
    {
        let mut s = self;
        s.template.single_buffering = single_buffering;
        s
    }

    /// Whether the configuration should support transparency.
    pub fn with_transparency(self, transparency: bool) -> (r: Self)
        ensures
            r.template == (ConfigTemplate { transparency, ..self.template }),
    {
        let mut s = self;
        s.template.transparency = transparency;
        s
    }

    /// With the maximum sizes of pbuffer; both are non-zero.
    pub fn with_pbuffer_sizes(self, width: u32, height: u32) -> (r: Self)
        requires
            width > 0,
            height > 0,
        ensures
            r.template == (ConfigTemplate {
                max_pbuffer_width: Some(width),
                max_pbuffer_height: Some(height),
                ..self.template
            }),
    {
        let mut s = self;
        s.template.max_pbuffer_width = Some(width);
        s.template.max_pbuffer_height = Some(height);
        s
    }

    /// Whether the configuration should prefer hardware accelerated formats or not.
    pub fn prefer_hardware_accelerated(self, hardware_accerelated: Option<bool>) -> (r: Self)
        ensures
            r.template == (ConfigTemplate {
                hardware_accelerated: hardware_accerelated,
                ..self.template
            }),
    {
        let mut s = self;
        s.template.hardware_accelerated = hardware_accerelated;
        s
    }

    /// Request config that can render to a particular native window.
    pub fn compatible_with_native_window(self, native_window: NativeWindowHandle) -> (r: Self)
        ensures
            r.template == (ConfigTemplate { native_window: Some(native_window), ..self.template }),
    {
        let mut s = self;
        s.template.native_window = Some(native_window);
        s
    }

    /// With supported swap intervals.
    pub fn with_swap_interval(
        self,
        min_swap_interval: Option<u16>,
        max_swap_interval: Option<u16>,
    ) -> (r: Self)
        ensures
            r.template == (ConfigTemplate { min_swap_interval, max_swap_interval, ..self.template }),
    {
        let mut s = self;
        s.template.min_swap_interval = min_swap_interval;
        s.template.max_swap_interval = max_swap_interval;
        s
    }

    /// Build the template to match the configs against.
    pub fn build(self) -> (r: ConfigTemplate)
        ensures
            r == self.template,
    {
        self.template
    }
}

/// The features a display reported through its extensions and version.
#[derive(Debug, Clone, Copy, PartialEq, Eq)]
pub struct DisplayFeatures {
    /// The display supports multisampled pixel formats.
    pub multisampling_pixel_formats: bool,
    /// The display supports floating point pixel formats.
    pub float_pixel_format: bool,
    /// The display supports sRGB framebuffers.
    pub srgb_framebuffers: bool,
    /// The display can create OpenGL ES contexts.
    pub create_es_context: bool,
    /// The display can control the swap interval.
    pub swap_control: bool,
    /// The display supports robust contexts.
    pub context_robustness: bool,
    /// The display can choose the release behavior of a context.
    pub context_release_behavior: bool,
    /// The display supports contexts without error checking.
    pub context_no_error: bool,
}

impl DisplayFeatures {
    /// No feature at all.
    pub fn empty() -> (r: Self)
        ensures
            !r.multisampling_pixel_formats && !r.float_pixel_format && !r.srgb_framebuffers
                && !r.create_es_context && !r.swap_control && !r.context_robustness
                && !r.context_release_behavior && !r.context_no_error,
    {
        DisplayFeatures {
            multisampling_pixel_formats: false,
            float_pixel_format: false,
            srgb_framebuffers: false,
            create_es_context: false,
            swap_control: false,
            context_robustness: false,
            context_release_behavior: false,
            context_no_error: false,
        }
    }
}

/// The trait to group all common config option.
pub trait GlConfig {
    /// The type of the underlying color buffer; `None` when it can not be identified.
    fn color_buffer_type(&self) -> Option<ColorBufferType>;

    /// Whether the config uses floating pixels.
    fn float_pixels(&self) -> bool;

    /// The size of the alpha.
    fn alpha_size(&self) -> u8;

    /// The size of the depth buffer.
    fn depth_size(&self) -> u8;

    /// The size of the stencil buffer.
    fn stencil_size(&self) -> u8;

    /// The number of samples in multisample buffer; zero means no samples.
    fn num_samples(&self) -> u8;

    /// Whether the config supports creating srgb capable surfaces.
    fn srgb_capable(&self) -> bool;

    /// Whether the config supports creating transparent surfaces, when that is known.
    fn supports_transparency(&self) -> Option<bool>;

    /// Whether the config is hardware accelerated.
    fn hardware_accelerated(&self) -> bool;

    /// The type of the surfaces that can be created with this config.
    fn config_surface_types(&self) -> ConfigSurfaceTypes;

    /// The [`Api`] supported by the configuration.
    fn api(&self) -> Api;
}

/// Get the GL config used to create a particular GL object.
pub trait GetGlConfig {
    /// The config type.
    type Target: GlConfig;

    /// Get the GL config used to create a particular GL object.
    fn config(&self) -> Self::Target;
}

} // verus!
