use glutin::android::{AndroidEvent, AndroidLifecycle, SurfaceAction};
use glutin::caca::{check_display, check_dither, check_library, dither_masks, dither_order, dither_parameters};
use glutin::cgl::{
    check_context_request, check_error, first_pixel_format, pixel_format_attributes,
    profiles_to_try, swap_interval_value, CglConfig,
};
use glutin::config::{
    Api, ColorBufferType, ConfigSurfaceTypes, ConfigTemplateBuilder, GlConfig,
};
use glutin::context::{ContextApi, GlProfile, Robustness, Version};
use glutin::error::{ContextError, CreationError, Error, ErrorKind};
use glutin::ios::{
    context_outcome, depth_bits, multisampling, pixel_format, present_outcome,
    requested_api_version, set_current_outcome, stencil_bits, validate_version, versions_to_try,
    ColorFormat,
};
use glutin::legacy::{GlApi, GlRequest, GlVersion};
use glutin::loader::{first_loaded, library_paths, PlatformLibrary};
use glutin::osmesa::{buffer_len, context_attributes, LoadingError};
use glutin::surface::SwapInterval;
use glutin::unix::{
    examine_visual_info, BackingApi, ContextPlatformAttributes, ContextType, Lacks, RawHandle,
    SurfacePlatformAttributes,
};
use glutin::window::non_zero;

#[test]
fn cgl_error_codes() {
    assert!(check_error(0, String::new()).is_ok());
    let e = check_error(10002, "invalid pixel format".to_string()).unwrap_err();
    assert_eq!(e.kind, ErrorKind::BadConfig);
    assert_eq!(e.raw_code, Some(10002));
    assert_eq!(e.raw_os_message.as_deref(), Some("invalid pixel format"));
    assert_eq!(check_error(10008, String::new()).unwrap_err().kind, ErrorKind::BadAttribute);
    assert_eq!(check_error(10007, String::new()).unwrap_err().kind, ErrorKind::BadContextState);
    assert_eq!(check_error(10016, String::new()).unwrap_err().kind, ErrorKind::OutOfMemory);
    assert_eq!(check_error(10017, String::new()).unwrap_err().kind, ErrorKind::Misc);
}

#[test]
fn cgl_pixel_format_of_default_template() {
    let template = ConfigTemplateBuilder::new().with_depth_size(24).with_stencil_size(8).build();
    let (attrs, pos) = pixel_format_attributes(&template).unwrap();
    assert_eq!(attrs, vec![51, 96, 8, 32, 11, 8, 12, 24, 13, 8, 5, 99, 0x4100, 0]);
    assert_eq!(pos, 12);
    assert_eq!(attrs[pos], 0x4100);
    let luminance = ConfigTemplateBuilder::new().with_depth_size(24).with_stencil_size(8).with_buffer_type(ColorBufferType::Luminance(8)).build();
    assert_eq!(
        pixel_format_attributes(&luminance).unwrap_err().kind,
        ErrorKind::NotSupported("luminance buffers are not supported with CGL")
    );
}

#[test]
fn cgl_pixel_format_with_options() {
    let template = ConfigTemplateBuilder::new().with_depth_size(24).with_stencil_size(8)
        .with_float_pixels(true)
        .with_multisampling(4)
        .with_single_buffering(true)
        .prefer_hardware_accelerated(Some(true))
        .with_stereoscopy(Some(true))
        .build();
    let (attrs, pos) = pixel_format_attributes(&template).unwrap();
    assert_eq!(
        attrs,
        vec![51, 96, 8, 32, 11, 8, 12, 24, 13, 8, 58, 59, 55, 1, 56, 4, 73, 6, 99, 0x4100, 0]
    );
    assert_eq!(pos, 19);
}

#[test]
fn cgl_profiles_newest_first() {
    assert_eq!(profiles_to_try(), vec![0x4100, 0x3200, 0x1000]);
    assert_eq!(first_pixel_format(&vec![None, Some(7), Some(8)]), Ok(7));
    assert_eq!(first_pixel_format(&vec![None, None]).unwrap_err().kind, ErrorKind::BadConfig);
}

#[test]
fn cgl_config_decoding() {
    let config = CglConfig {
        color_size: 32,
        alpha_size: 8,
        color_float: 0,
        accelerated: 1,
        depth_size: 24,
        stencil_size: 8,
        samples: 0,
        triple_buffer: 0,
        double_buffer: 1,
        transparency: true,
    };
    assert_eq!(
        config.color_buffer_type(),
        Some(ColorBufferType::Rgb { r_size: 8, g_size: 8, b_size: 8 })
    );
    let rgb565 = CglConfig { color_size: 16, alpha_size: 0, ..config };
    assert_eq!(
        rgb565.color_buffer_type(),
        Some(ColorBufferType::Rgb { r_size: 5, g_size: 6, b_size: 5 })
    );
    assert!(config.hardware_accelerated());
    assert!(config.srgb_capable());
    assert_eq!(config.supports_transparency(), Some(true));
    assert_eq!(config.config_surface_types().bits, 1);
    assert_eq!(config.api().bits, 1);
    assert!(!config.is_single_buffered());
    let single = CglConfig { double_buffer: 0, ..config };
    assert!(single.is_single_buffered());
}

#[test]
fn cgl_context_requests() {
    assert!(check_context_request(None, Robustness::NotRobust).is_ok());
    assert_eq!(
        check_context_request(Some(ContextApi::Gles(None)), Robustness::NotRobust)
            .unwrap_err()
            .kind,
        ErrorKind::NotSupported("gles is not supported with CGL")
    );
    assert_eq!(
        check_context_request(Some(ContextApi::OpenGl(None)), Robustness::NoError)
            .unwrap_err()
            .kind,
        ErrorKind::NotSupported("robustness is not supported with CGL")
    );
    assert_eq!(swap_interval_value(SwapInterval::DontWait), 0);
    assert_eq!(swap_interval_value(SwapInterval::Wait(3)), 1);
}

#[test]
fn ios_color_formats() {
    let rgba = ColorFormat::for_view(0);
    assert_eq!(rgba, ColorFormat::Rgba8888);
    assert_eq!((rgba.color_bits(), rgba.alpha_bits(), rgba.srgb()), (8, 8, false));
    let rgb565 = ColorFormat::for_view(1);
    assert_eq!((rgb565.color_bits(), rgb565.alpha_bits(), rgb565.srgb()), (16, 0, false));
    let srgb = ColorFormat::for_view(2);
    assert_eq!((srgb.color_bits(), srgb.alpha_bits(), srgb.srgb()), (8, 8, true));
    assert_eq!((depth_bits(0), depth_bits(1), depth_bits(2)), (0, 16, 24));
    assert_eq!((stencil_bits(0), stencil_bits(1)), (0, 8));
    assert_eq!((multisampling(0), multisampling(1)), (None, Some(4)));
    let f = pixel_format(ColorFormat::Srgba8888, 2, 1, 1);
    assert!(f.hardware_accelerated && f.double_buffer && !f.stereoscopy && f.srgb);
    assert_eq!((f.color_bits, f.alpha_bits, f.depth_bits, f.stencil_bits), (8, 8, 24, 8));
    assert_eq!(f.multisampling, Some(4));
}

#[test]
fn ios_versions() {
    assert_eq!(validate_version(2), Ok(2));
    assert!(matches!(validate_version(4), Err(CreationError::OsError(_))));
    assert!(matches!(validate_version(0), Err(CreationError::OsError(_))));
    assert_eq!(requested_api_version(GlRequest::Latest), Ok(3));
    assert_eq!(
        requested_api_version(GlRequest::Specific(GlApi::OpenGlEs, GlVersion(1, 1))),
        Ok(1)
    );
    assert!(matches!(
        requested_api_version(GlRequest::Specific(GlApi::OpenGl, GlVersion(3, 3))),
        Err(CreationError::OsError(_))
    ));
    assert_eq!(
        requested_api_version(GlRequest::GlThenGles {
            opengl_version: GlVersion(3, 3),
            opengles_version: GlVersion(2, 0)
        }),
        Ok(2)
    );
    assert_eq!(versions_to_try(3), vec![3, 2, 1]);
    assert!(versions_to_try(0).is_empty());
    assert!(context_outcome(true).is_ok());
    assert!(matches!(context_outcome(false), Err(CreationError::OsError(_))));
    assert!(matches!(present_outcome(false), Err(ContextError::IoError(_))));
    assert!(set_current_outcome(true).is_ok());
}

#[test]
fn osmesa_attributes() {
    assert_eq!(
        context_attributes(Robustness::NotRobust, None, GlRequest::Latest).unwrap(),
        vec![0]
    );
    assert_eq!(
        context_attributes(
            Robustness::NotRobust,
            Some(GlProfile::Core),
            GlRequest::Specific(GlApi::OpenGl, GlVersion(3, 3))
        )
        .unwrap(),
        vec![0x33, 0x34, 0x36, 3, 0x37, 3, 0]
    );
    assert_eq!(
        context_attributes(
            Robustness::NoError,
            Some(GlProfile::Compatibility),
            GlRequest::GlThenGles { opengl_version: GlVersion(2, 1), opengles_version: GlVersion(2, 0) }
        )
        .unwrap(),
        vec![0x33, 0x35, 0x36, 2, 0x37, 1, 0]
    );
    assert_eq!(
        context_attributes(Robustness::RobustNoResetNotification, None, GlRequest::Latest),
        Err(CreationError::RobustnessNotSupported)
    );
    assert!(matches!(
        context_attributes(Robustness::NotRobust, None, GlRequest::Specific(GlApi::WebGl, GlVersion(1, 0))),
        Err(CreationError::NoBackendAvailable(_))
    ));
    assert_eq!(buffer_len(640, 480), 307200);
    assert_eq!(LoadingError::new("libOSMesa.so").0, "\"libOSMesa.so\"");
}

#[test]
fn android_lifecycle() {
    let mut life = AndroidLifecycle::windowed();
    assert!(life.check_running().is_ok());
    life.handle(AndroidEvent::Other);
    assert!(life.check_running().is_ok());
    life.handle(AndroidEvent::TermWindow);
    assert_eq!(life.check_running(), Err(ContextError::ContextLost));
    assert_eq!(life.set_suspended(false), SurfaceAction::Create);
    assert!(life.check_running().is_ok());
    assert_eq!(life.set_suspended(true), SurfaceAction::Destroy);
    assert_eq!(life.check_running(), Err(ContextError::ContextLost));
    assert!(AndroidLifecycle::headless().check_running().is_ok());
    assert!(AndroidLifecycle::check_native_window(0).is_err());
    assert!(AndroidLifecycle::check_native_window(1).is_ok());
}

#[test]
fn caca_dithering() {
    assert_eq!(dither_masks(true), (0xff, 0xff00, 0xff0000, 0xff000000));
    assert_eq!(dither_masks(false), (0xff000000, 0xff0000, 0xff00, 0xff));
    assert_eq!(dither_parameters(80, 25), (32, 80, 25, 320));
    assert_eq!(dither_order(&vec![1, 2, 3, 4, 5, 6], 3), vec![6, 5, 4, 3, 2, 1]);
    assert!(dither_order(&vec![], 3).is_empty());
    assert!(matches!(check_library(false), Err(CreationError::NotSupported(_))));
    assert!(matches!(check_display(0), Err(CreationError::OsError(_))));
    assert!(check_dither(5).is_ok());
}

#[test]
fn library_loading_order() {
    assert_eq!(library_paths(PlatformLibrary::Egl, false), vec!["libEGL.so.1", "libEGL.so"]);
    assert_eq!(library_paths(PlatformLibrary::Egl, true), vec!["libEGL.dll", "atioglxx.dll"]);
    assert_eq!(library_paths(PlatformLibrary::Glx, false), vec!["libGL.so.1", "libGL.so"]);
    assert_eq!(first_loaded(&vec![false, true, true]), Some(1));
    assert_eq!(first_loaded(&vec![false, false]), None);
}

#[test]
fn window_sizes_must_not_be_zero() {
    assert_eq!(non_zero(800, 600), Some((800, 600)));
    assert_eq!(non_zero(0, 600), None);
    assert_eq!(non_zero(800, 0), None);
}

#[test]
fn unix_defaults_and_visual_checks() {
    assert_eq!(BackingApi::default(), BackingApi::GlxThenEgl);
    assert_eq!(SurfacePlatformAttributes::default().x11_visual_xid, None);
    assert_eq!(ContextPlatformAttributes::default().glx_transparency, None);
    assert_ne!(RawHandle::Glx(1), RawHandle::Egl(1));
    assert_eq!(ContextType::Wayland, ContextType::Wayland);
    assert_eq!(examine_visual_info(5, true, Some(6), Some(0xff)), Err(Lacks::XID));
    assert_eq!(examine_visual_info(5, true, Some(5), None), Err(Lacks::Transparency));
    assert_eq!(examine_visual_info(5, true, None, Some(0)), Err(Lacks::Transparency));
    assert_eq!(examine_visual_info(5, true, None, Some(0xff)), Ok(()));
    assert_eq!(examine_visual_info(5, false, None, None), Ok(()));
}

#[test]
fn config_template_builder_sets_fields() {
    let t = ConfigTemplateBuilder::new()
        .with_alpha_size(0)
        .with_depth_size(16)
        .with_stencil_size(0)
        .with_api(Api::gles3())
        .with_transparency(true)
        .with_surface_type(ConfigSurfaceTypes::pbuffer())
        .build();
    assert_eq!((t.alpha_size, t.depth_size, t.stencil_size), (0, 16, 0));
    assert_eq!(t.api, Some(Api::gles3()));
    assert!(t.transparency);
    assert_eq!(t.config_surface_types, ConfigSurfaceTypes::pbuffer());
    let d = ConfigTemplateBuilder::new().build();
    assert_eq!(d.color_buffer_type, ColorBufferType::Rgb { r_size: 8, g_size: 8, b_size: 8 });
    assert_eq!((d.alpha_size, d.depth_size, d.stencil_size), (8, 0, 0));
    assert_eq!(d.config_surface_types, ConfigSurfaceTypes::window());
    assert_eq!(d.num_samples, None);
}

#[test]
fn version_comparisons() {
    let v = Version::new(3, 2);
    assert!(v.at_least(3, 2));
    assert!(v.at_least(2, 9));
    assert!(!v.at_least(3, 3));
    assert!(v.greater_than(3, 1));
    assert!(!v.greater_than(3, 2));
    assert_eq!(ContextApi::Gles(Some(v)).version(), Some(v));
    assert_eq!(Error::from_kind(ErrorKind::BadMatch).error_kind(), ErrorKind::BadMatch);
}
