use glutin::config::{
    ColorBufferType, ConfigSurfaceTypes, ConfigTemplateBuilder, DisplayFeatures, GlConfig,
    NativeWindowHandle,
};
use glutin::error::{CreationError, Error, ErrorKind};
use glutin::extensions::ExtensionSet;
use glutin::surface::SwapInterval;
use glutin::wgl::config::{
    arb_attributes, check_normal_choice, dummy_descriptor, native_window_target,
    normal_descriptor, template_window, ArbAttributes, PixelFormatDescriptor, SrgbSupport,
    WglConfig,
};
use glutin::wgl::surface::{
    check_pbuffer_support, client_extent, create_pixmap_surface, pbuffer_extent, pbuffer_request,
    swap_interval_request, window_surface_target, CurrentContextGuard, WglSurfaceKind,
};
use glutin::wgl::{
    extension_source, extract_display_features, load_extensions, CleanupAction, CleanupEvent,
    CleanupPhase, DummyCleanup, ExtensionSource,
};

#[test]
fn wgl_display_features() {
    let exts = ExtensionSet::from_str(
        "WGL_ARB_multisample WGL_EXT_colorspace WGL_EXT_create_context_es_profile WGL_EXT_swap_control",
    );
    let f = extract_display_features(&exts);
    assert!(f.multisampling_pixel_formats);
    assert!(f.srgb_framebuffers);
    assert!(f.create_es_context);
    assert!(f.swap_control);
    assert!(!f.float_pixel_format);
    assert!(!f.context_robustness);
    assert_eq!(extract_display_features(&ExtensionSet::new()), DisplayFeatures::empty());
}

#[test]
fn wgl_extension_loading() {
    assert_eq!(extension_source(true, true), ExtensionSource::Arb);
    assert_eq!(extension_source(false, true), ExtensionSource::Ext);
    assert_eq!(extension_source(false, false), ExtensionSource::Neither);
    assert!(load_extensions(Some("WGL_ARB_pbuffer WGL_EXT_swap_control")).contains("WGL_ARB_pbuffer"));
    assert!(!load_extensions(None).contains("WGL_ARB_pbuffer"));
}

#[test]
fn wgl_normal_descriptor_of_default_template() {
    let template = ConfigTemplateBuilder::new().with_depth_size(24).with_stencil_size(8).build();
    let d = normal_descriptor(&template).unwrap();
    assert_eq!(
        d,
        PixelFormatDescriptor {
            version: 1,
            flags: 0x8000_0025,
            pixel_type: 0,
            color_bits: 24,
            red_bits: 8,
            green_bits: 8,
            blue_bits: 8,
            alpha_bits: 8,
            depth_bits: 24,
            stencil_bits: 8,
            layer_type: 0,
        }
    );
    let accelerated_stereo = ConfigTemplateBuilder::new().with_depth_size(24).with_stencil_size(8)
        .with_single_buffering(true)
        .with_surface_type(ConfigSurfaceTypes::pixmap())
        .with_stereoscopy(Some(true))
        .prefer_hardware_accelerated(Some(true))
        .build();
    assert_eq!(normal_descriptor(&accelerated_stereo).unwrap().flags, 0x20 | 0x8 | 0x2 | 0x1000);
    let luminance = ConfigTemplateBuilder::new().with_depth_size(24).with_stencil_size(8).with_buffer_type(ColorBufferType::Luminance(8)).build();
    assert_eq!(
        normal_descriptor(&luminance).unwrap_err().kind,
        ErrorKind::NotSupported("luminance buffers are not supported with WGL")
    );
}

#[test]
fn wgl_normal_choice_checks() {
    let d = dummy_descriptor();
    assert_eq!(d.flags, 0x4 | 0x20 | 0x1);
    assert_eq!((d.color_bits, d.alpha_bits, d.depth_bits, d.stencil_bits), (24, 8, 24, 8));
    assert!(check_normal_choice(3, &d).is_ok());
    assert_eq!(check_normal_choice(0, &d).unwrap_err().kind, ErrorKind::BadConfig);
    let indexed = PixelFormatDescriptor { pixel_type: 1, ..d };
    assert_eq!(check_normal_choice(3, &indexed).unwrap_err().kind, ErrorKind::BadConfig);
    assert_eq!(template_window(Some(NativeWindowHandle::Win32 { hwnd: 77, hinstance: 1 })), 77);
    assert_eq!(template_window(None), 0);
}

#[test]
fn wgl_arb_attributes_of_default_template() {
    let template = ConfigTemplateBuilder::new().with_depth_size(24).with_stencil_size(8).build();
    assert_eq!(
        arb_attributes(&template, &DisplayFeatures::empty()).unwrap(),
        vec![
            0x2015, 8, 0x2017, 8, 0x2019, 8, 0x201B, 8, 0x2022, 24, 0x2023, 8, 0x2010, 1, 0x2011,
            1, 0x2013, 0x202B, 0x2001, 1, 0
        ]
    );
}

#[test]
fn wgl_arb_attributes_with_options() {
    let mut features = DisplayFeatures::empty();
    features.float_pixel_format = true;
    features.multisampling_pixel_formats = true;
    let template = ConfigTemplateBuilder::new().with_depth_size(24).with_stencil_size(8)
        .with_float_pixels(true)
        .with_multisampling(8)
        .with_surface_type(ConfigSurfaceTypes::pixmap())
        .with_stereoscopy(Some(true))
        .prefer_hardware_accelerated(Some(false))
        .with_transparency(true)
        .build();
    assert_eq!(
        arb_attributes(&template, &features).unwrap(),
        vec![
            0x2015, 8, 0x2017, 8, 0x2019, 8, 0x201B, 8, 0x2022, 24, 0x2023, 8, 0x2010, 1, 0x2011,
            1, 0x2041, 1, 0x2042, 8, 0x2013, 0x21A0, 0x2012, 1, 0x2003, 0x2025, 0x2002, 1,
            0x200A, 1, 0
        ]
    );
    assert_eq!(
        arb_attributes(&template, &DisplayFeatures::empty()).unwrap_err().kind,
        ErrorKind::NotSupported("float pixels are not supported")
    );
}

fn arb_values() -> ArbAttributes {
    ArbAttributes {
        red_bits: 8,
        green_bits: 8,
        blue_bits: 8,
        alpha_bits: 8,
        depth_bits: 24,
        stencil_bits: 8,
        pixel_type: 0x21A0,
        samples: 4,
        draw_to_window: 0,
        draw_to_bitmap: 1,
        acceleration: 0x2027,
        transparent: 1,
        double_buffer: 1,
        srgb_capable: 1,
    }
}

#[test]
fn wgl_config_decoding_through_arb() {
    let mut features = DisplayFeatures::empty();
    features.float_pixel_format = true;
    features.create_es_context = true;
    let config = WglConfig {
        pixel_format_index: 3,
        descriptor: None,
        attributes: arb_values(),
        features,
        srgb: SrgbSupport::Arb,
    };
    assert!(config.float_pixels());
    assert_eq!(config.num_samples(), 0);
    assert!(config.srgb_capable());
    assert_eq!(config.supports_transparency(), Some(true));
    assert!(config.hardware_accelerated());
    assert_eq!(config.config_surface_types().bits, 2);
    assert_eq!(config.api().bits, 7);
    assert!(!config.is_single_buffered());
    let no_srgb = WglConfig { srgb: SrgbSupport::Unsupported, ..config };
    assert!(!no_srgb.srgb_capable());
}

#[test]
fn wgl_config_decoding_through_descriptor() {
    let descriptor = PixelFormatDescriptor { flags: 0x4 | 0x8, alpha_bits: 0, ..dummy_descriptor() };
    let config = WglConfig {
        pixel_format_index: 1,
        descriptor: Some(descriptor),
        attributes: arb_values(),
        features: DisplayFeatures::empty(),
        srgb: SrgbSupport::Ext,
    };
    assert_eq!(config.color_buffer_type(), Some(ColorBufferType::Rgb { r_size: 0, g_size: 0, b_size: 0 }));
    assert_eq!(config.alpha_size(), 0);
    assert_eq!(config.supports_transparency(), None);
    assert!(!config.hardware_accelerated());
    assert_eq!(config.config_surface_types().bits, 1 | 2);
    assert!(config.is_single_buffered());
    assert_eq!(config.api().bits, 1);
    assert_eq!(native_window_target(NativeWindowHandle::Win32 { hwnd: 5, hinstance: 0 }), Ok(5));
    assert_eq!(
        native_window_target(NativeWindowHandle::Other).unwrap_err().kind,
        ErrorKind::BadNativeWindow
    );
}

#[test]
fn wgl_surfaces() {
    assert!(create_pixmap_surface().unwrap_err().not_supported());
    assert!(check_pbuffer_support(true, true).is_ok());
    assert!(check_pbuffer_support(false, true).unwrap_err().not_supported());
    let (w, h, attrs) = pbuffer_request(100, 50, true);
    assert_eq!((w, h, attrs), (100, 50, vec![0x2033, 1, 0]));
    assert_eq!(pbuffer_request(1, 1, false).2, vec![0, 0, 0]);
    assert_eq!(window_surface_target(NativeWindowHandle::Win32 { hwnd: 9, hinstance: 0 }), Ok(9));
    assert!(window_surface_target(NativeWindowHandle::Wayland { surface: 9 }).is_err());
    assert_eq!(client_extent(true, 10, 110), Some(100));
    assert_eq!(client_extent(false, 10, 110), None);
    assert_eq!(pbuffer_extent(true, 64), Some(64));
    assert_eq!(
        swap_interval_request(WglSurfaceKind::Window, true, SwapInterval::Wait(3)),
        Ok(3)
    );
    assert_eq!(swap_interval_request(WglSurfaceKind::Window, true, SwapInterval::DontWait), Ok(0));
    assert_eq!(
        swap_interval_request(WglSurfaceKind::Window, false, SwapInterval::DontWait)
            .unwrap_err()
            .kind,
        ErrorKind::NotSupported("swap control extensions are not supported")
    );
    assert_eq!(
        swap_interval_request(WglSurfaceKind::PBuffer, true, SwapInterval::DontWait)
            .unwrap_err()
            .kind,
        ErrorKind::NotSupported("swap control not supported for surface")
    );
}

#[test]
fn wgl_current_context_guard() {
    let guard = CurrentContextGuard::make_current(1, 2, true, "").unwrap();
    assert_eq!(guard.restore(), (1, 2));
    assert_eq!(
        CurrentContextGuard::make_current(1, 2, false, "denied"),
        Err(CreationError::OsError("wglMakeCurrent function failed: denied".to_string()))
    );
}

#[test]
fn dummy_cleanup_full_run() {
    let mut c = DummyCleanup::new(10, 20, 30, 40, true);
    assert_eq!(c.advance(CleanupEvent::Begin), CleanupAction::MakeCurrent { dc: 10, context: 20 });
    assert_eq!(c.advance(CleanupEvent::Called(Ok(()))), CleanupAction::QueryCurrentContext);
    assert_eq!(c.advance(CleanupEvent::Current(20)), CleanupAction::QueryCurrentContext);
    assert_eq!(c.advance(CleanupEvent::Current(20)), CleanupAction::DeleteContext(30));
    assert_eq!(c.advance(CleanupEvent::Called(Ok(()))), CleanupAction::ReleaseDc(40));
    assert_eq!(c.advance(CleanupEvent::Called(Ok(()))), CleanupAction::DestroyWindow);
    assert_eq!(c.advance(CleanupEvent::Called(Ok(()))), CleanupAction::Finish);
    assert_eq!(c.phase, CleanupPhase::Finished);
    assert_eq!(c.outcome(Ok::<u32, Error>(5)), Ok(5));
}

#[test]
fn dummy_cleanup_detaches_a_still_current_context() {
    let mut c = DummyCleanup::new(0, 0, 30, 40, true);
    let restore_error = Error::os_error(Some(5), "restore".to_string());
    c.advance(CleanupEvent::Begin);
    assert_eq!(
        c.advance(CleanupEvent::Called(Err(restore_error.clone()))),
        CleanupAction::QueryCurrentContext
    );
    assert_eq!(c.advance(CleanupEvent::Current(30)), CleanupAction::MakeCurrent { dc: 0, context: 0 });
    let detach_error = Error::os_error(Some(6), "detach".to_string());
    assert_eq!(c.advance(CleanupEvent::Called(Err(detach_error))), CleanupAction::QueryCurrentContext);
    assert_eq!(c.advance(CleanupEvent::Current(0)), CleanupAction::DeleteContext(30));
    assert_eq!(c.advance(CleanupEvent::Called(Ok(()))), CleanupAction::ReleaseDc(40));
    assert_eq!(c.advance(CleanupEvent::Called(Ok(()))), CleanupAction::DestroyWindow);
    assert_eq!(c.advance(CleanupEvent::Called(Ok(()))), CleanupAction::Finish);
    assert_eq!(c.outcome(Ok::<u32, Error>(5)), Err(restore_error));
}

#[test]
fn dummy_cleanup_keeps_window_of_undeleted_context() {
    let mut c = DummyCleanup::new(0, 0, 30, 40, false);
    assert_eq!(c.advance(CleanupEvent::Begin), CleanupAction::QueryCurrentContext);
    assert_eq!(c.advance(CleanupEvent::Current(0)), CleanupAction::QueryCurrentContext);
    assert_eq!(c.advance(CleanupEvent::Current(0)), CleanupAction::DeleteContext(30));
    let delete_error = Error::os_error(None, "delete".to_string());
    assert_eq!(c.advance(CleanupEvent::Called(Err(delete_error.clone()))), CleanupAction::Finish);
    assert!(!c.context_deleted);
    assert_eq!(c.outcome(Ok::<u32, Error>(5)), Err(delete_error));
}

#[test]
fn dummy_cleanup_without_context_and_failed_release() {
    let mut c = DummyCleanup::new(0, 0, 0, 40, false);
    assert_eq!(c.advance(CleanupEvent::Begin), CleanupAction::ReleaseDc(40));
    assert_eq!(
        c.advance(CleanupEvent::Called(Err(Error::os_error(Some(1), "ignored".to_string())))),
        CleanupAction::DestroyWindow
    );
    assert_eq!(c.advance(CleanupEvent::Called(Ok(()))), CleanupAction::Finish);
    let e = c.outcome(Ok::<u32, Error>(5)).unwrap_err();
    assert_eq!(e.kind, ErrorKind::Misc);
    assert_eq!(e.raw_code, None);
    assert_eq!(e.raw_os_message.as_deref(), Some("dummy ReleaseDC failed"));
    let init_error = Error::os_error(Some(2), "init".to_string());
    let mut d = DummyCleanup::new(0, 0, 0, 0, false);
    assert_eq!(d.advance(CleanupEvent::Begin), CleanupAction::DestroyWindow);
    d.advance(CleanupEvent::Called(Err(Error::os_error(Some(3), "destroy".to_string()))));
    assert_eq!(d.outcome(Err::<u32, Error>(init_error.clone())), Err(init_error));
}
