use glutin::config::{
    ColorBufferType, ConfigSurfaceTypes, ConfigTemplate, ConfigTemplateBuilder, DisplayFeatures,
    GlConfig, NativeDisplayHandle, NativeWindowHandle,
};
use glutin::context::{
    ContextApi, ContextAttributes, GlProfile, RawContext, ReleaseBehavior, Robustness, Version,
};
use glutin::error::{Error, ErrorKind};
use glutin::extensions::ExtensionSet;
use glutin::glx::config::{check_chosen, config_attributes, keep_config, GlxConfig};
use glutin::glx::context::{
    arb_context_attributes, check_created, created_context_api, legacy_render_type,
    shared_context, use_create_context_arb,
};
use glutin::glx::make_current_guard::GlxMakeCurrentGuard;
use glutin::glx::surface::{
    buffer_age, pbuffer_attributes, pixmap_request, swap_interval_plan, swap_interval_result,
    vendor_swap_applied, window_request, SwapMethod, SwapOutcome,
};
use glutin::glx::{
    check_version, classify_x_error, extract_display_features, xlib_display, LastGlxError,
};
use glutin::surface::{NativePixmap, SwapInterval};

fn plain_attributes() -> ContextAttributes {
    ContextAttributes {
        release_behavior: ReleaseBehavior::Flush,
        debug: false,
        robustness: Robustness::NotRobust,
        profile: None,
        api: None,
        shared_context: None,
    }
}

#[test]
fn x_errors_are_classified() {
    assert_eq!(classify_x_error(2, 150), Some(ErrorKind::BadAttribute));
    assert_eq!(classify_x_error(8, 150), Some(ErrorKind::BadMatch));
    assert_eq!(classify_x_error(3, 150), Some(ErrorKind::BadNativeWindow));
    assert_eq!(classify_x_error(11, 150), Some(ErrorKind::OutOfMemory));
    assert_eq!(classify_x_error(4, 150), Some(ErrorKind::BadPixmap));
    assert_eq!(classify_x_error(10, 150), Some(ErrorKind::BadAccess));
    assert_eq!(classify_x_error(150, 150), Some(ErrorKind::BadContext));
    assert_eq!(classify_x_error(159, 150), Some(ErrorKind::BadConfig));
    assert_eq!(classify_x_error(160, 150), Some(ErrorKind::BadPbuffer));
    assert_eq!(classify_x_error(161, 150), Some(ErrorKind::BadCurrentSurface));
    assert_eq!(classify_x_error(162, 150), Some(ErrorKind::BadSurface));
    assert_eq!(classify_x_error(156, 150), Some(ErrorKind::Misc));
    assert_eq!(classify_x_error(163, 150), None);
    assert_eq!(classify_x_error(1, 150), None);
}

#[test]
fn last_error_is_taken_once() {
    let mut slot = LastGlxError::new();
    assert_eq!(slot.take(), Ok(()));
    slot.store(9, ErrorKind::BadConfig, "first".to_string());
    slot.store(2, ErrorKind::BadAttribute, "second".to_string());
    assert_eq!(
        slot.take(),
        Err(Error::new(Some(2), Some("second".to_string()), ErrorKind::BadAttribute))
    );
    assert_eq!(slot.take(), Ok(()));
}

#[test]
fn display_needs_xlib_and_glx_1_3() {
    assert_eq!(xlib_display(NativeDisplayHandle::Xlib { display: 4, screen: 1 }), Ok((4, 1)));
    assert_eq!(
        xlib_display(NativeDisplayHandle::Xlib { display: 0, screen: 1 }).unwrap_err().kind,
        ErrorKind::BadDisplay
    );
    assert!(xlib_display(NativeDisplayHandle::Wayland { display: 4 }).unwrap_err().not_supported());
    assert_eq!(check_version(Some((1, 4))), Ok(Version::new(1, 4)));
    assert!(check_version(Some((1, 2))).unwrap_err().not_supported());
    assert_eq!(check_version(None).unwrap_err().kind, ErrorKind::InitializationFailed);
}

#[test]
fn glx_display_features() {
    let exts = ExtensionSet::from_str("GLX_MESA_swap_control GLX_ARB_fbconfig_float");
    let f = extract_display_features(&exts, Version::new(1, 4));
    assert!(f.multisampling_pixel_formats);
    assert!(f.float_pixel_format);
    assert!(f.swap_control);
    assert!(!f.srgb_framebuffers);
    let g = extract_display_features(&exts, Version::new(1, 3));
    assert!(!g.multisampling_pixel_formats);
}

#[test]
fn glx_default_template_attribute_list() {
    let template = ConfigTemplateBuilder::new().with_depth_size(24).with_stencil_size(8).build();
    assert_eq!(
        config_attributes(&template, &DisplayFeatures::empty()).unwrap(),
        vec![
            0x22, 0x8002, 8, 8, 9, 8, 10, 8, 0x8011, 1, 5, 1, 11, 8, 12, 24, 13, 8, 0x8010, 1, 0
        ]
    );
}

#[test]
fn glx_luminance_visual_and_samples() {
    let mut features = DisplayFeatures::empty();
    features.multisampling_pixel_formats = true;
    let template = ConfigTemplate {
        native_window: Some(NativeWindowHandle::Xlib { window: 3, visual_id: 0x21 }),
        ..ConfigTemplateBuilder::new().with_depth_size(24).with_stencil_size(8)
            .with_buffer_type(ColorBufferType::Luminance(8))
            .with_single_buffering(true)
            .with_surface_type(ConfigSurfaceTypes { bits: 7 })
            .with_multisampling(2)
            .with_stereoscopy(Some(false))
            .prefer_hardware_accelerated(Some(true))
            .build()
    };
    assert_eq!(
        config_attributes(&template, &features).unwrap(),
        vec![
            0x22, 0x8006, 8, 8, 0x8011, 1, 0x20, 0x8000, 5, 0, 11, 8, 12, 24, 13, 8, 0x800B, 0x21,
            0x8010, 7, 6, 0, 100000, 1, 100001, 2, 0
        ]
    );
    let float = ConfigTemplateBuilder::new().with_depth_size(24).with_stencil_size(8).with_float_pixels(true).build();
    assert!(config_attributes(&float, &DisplayFeatures::empty()).unwrap_err().not_supported());
    assert_eq!(check_chosen(false).unwrap_err().kind, ErrorKind::BadConfig);
}

#[test]
fn glx_transparency_filter() {
    assert!(keep_config(false, None));
    assert!(keep_config(true, Some(true)));
    assert!(!keep_config(true, Some(false)));
    assert!(!keep_config(true, None));
}

#[test]
fn glx_config_decoding() {
    let config = GlxConfig {
        x_visual_type: 0x8002,
        red_size: 8,
        green_size: 8,
        blue_size: 8,
        render_type: 0x4,
        alpha_size: 8,
        config_caveat: 0x8001,
        srgb_capable: 1,
        depth_size: 24,
        stencil_size: 8,
        samples: 4,
        drawable_type: 0x5,
        double_buffer: 0,
        visual_transparency: Some(true),
        features: DisplayFeatures::empty(),
        srgb_extension: true,
    };
    assert_eq!(
        config.color_buffer_type(),
        Some(ColorBufferType::Rgb { r_size: 8, g_size: 8, b_size: 8 })
    );
    assert!(!config.float_pixels());
    assert!(!config.hardware_accelerated());
    assert!(config.srgb_capable());
    assert_eq!(config.config_surface_types().bits, 1 | 4);
    assert_eq!(config.api().bits, 1);
    assert!(config.is_single_buffered());
    assert_eq!(config.num_samples(), 4);
    let gray = GlxConfig { x_visual_type: 0x8006, ..config };
    assert_eq!(gray.color_buffer_type(), Some(ColorBufferType::Luminance(8)));
}

#[test]
fn glx_context_creation_path() {
    assert_eq!(shared_context(None), Ok(0));
    assert_eq!(shared_context(Some(RawContext::Glx(3))), Ok(3));
    assert!(shared_context(Some(RawContext::Egl(3))).unwrap_err().not_supported());
    assert!(use_create_context_arb(true, true));
    assert!(!use_create_context_arb(true, false));
    assert_eq!(legacy_render_type(true), 0x20B9);
    assert_eq!(legacy_render_type(false), 0x8014);
    assert_eq!(check_created(0).unwrap_err().kind, ErrorKind::BadContext);
    assert_eq!(created_context_api(Some(ContextApi::Gles(None))), ContextApi::Gles(None));
    assert_eq!(created_context_api(None), ContextApi::OpenGl(None));
}

#[test]
fn glx_arb_context_attributes() {
    let features = DisplayFeatures::empty();
    let core33 = (GlProfile::Core, Version::new(3, 3));
    assert_eq!(
        arb_context_attributes(core33, &plain_attributes(), &features).unwrap(),
        vec![0x9126, 1, 0x2091, 3, 0x2092, 3, 0]
    );
    let debug_with_profile =
        ContextAttributes { debug: true, profile: Some(GlProfile::Compatibility), ..plain_attributes() };
    assert_eq!(
        arb_context_attributes(core33, &debug_with_profile, &features).unwrap(),
        vec![0x9126, 1, 0x2091, 3, 0x2092, 3, 0x9126, 2, 0x2094, 1, 0]
    );
    let mut robust_features = DisplayFeatures::empty();
    robust_features.context_robustness = true;
    robust_features.context_release_behavior = true;
    let robust = ContextAttributes {
        robustness: Robustness::RobustLoseContextOnReset,
        release_behavior: ReleaseBehavior::NoFlush,
        ..plain_attributes()
    };
    assert_eq!(
        arb_context_attributes(core33, &robust, &robust_features).unwrap(),
        vec![0x9126, 1, 0x2091, 3, 0x2092, 3, 0x8256, 0x8252, 0x2094, 4, 0x2097, 0, 0]
    );
}

#[test]
fn glx_arb_context_refusals() {
    let features = DisplayFeatures::empty();
    let core = (GlProfile::Core, Version::new(3, 3));
    let es = ContextAttributes { api: Some(ContextApi::Gles(None)), ..plain_attributes() };
    assert_eq!(
        arb_context_attributes(core, &es, &features).unwrap_err().kind,
        ErrorKind::NotSupported("extension to create ES context with glx is not present.")
    );
    let mut es_features = DisplayFeatures::empty();
    es_features.create_es_context = true;
    assert_eq!(
        arb_context_attributes(core, &es, &es_features).unwrap(),
        vec![0x9126, 4, 0x2091, 2, 0x2092, 0, 0]
    );
    let robust = ContextAttributes { robustness: Robustness::RobustNoResetNotification, ..plain_attributes() };
    assert_eq!(
        arb_context_attributes(core, &robust, &features).unwrap_err().kind,
        ErrorKind::NotSupported("GLX_ARB_create_context_robustness is not supported")
    );
    let try_robust =
        ContextAttributes { robustness: Robustness::TryRobustNoResetNotification, ..plain_attributes() };
    assert!(arb_context_attributes(core, &try_robust, &features).is_ok());
    let mut robust_features = DisplayFeatures::empty();
    robust_features.context_robustness = true;
    let no_error = ContextAttributes { robustness: Robustness::NoError, ..plain_attributes() };
    assert_eq!(
        arb_context_attributes(core, &no_error, &robust_features).unwrap_err().kind,
        ErrorKind::NotSupported("GLX_ARB_create_context_no_error not supported")
    );
    let no_flush = ContextAttributes { release_behavior: ReleaseBehavior::NoFlush, ..plain_attributes() };
    assert_eq!(
        arb_context_attributes(core, &no_flush, &features).unwrap_err().kind,
        ErrorKind::NotSupported("flush control behavior GLX_ARB_context_flush_control")
    );
}

#[test]
fn glx_drawable_requests() {
    let (xid, attrs) = pixmap_request(NativePixmap::XlibPixmap(0x44)).unwrap();
    assert_eq!((xid, attrs), (0x44, vec![0]));
    assert_eq!(
        pixmap_request(NativePixmap::XlibPixmap(0)).unwrap_err().kind,
        ErrorKind::BadNativePixmap
    );
    assert!(pixmap_request(NativePixmap::XcbPixmap(3)).unwrap_err().not_supported());
    assert_eq!(
        pbuffer_attributes(16, 8, true),
        vec![0x8041, 16, 0x8040, 8, 0x801C, 1, 0]
    );
    assert_eq!(
        window_request(NativeWindowHandle::Xlib { window: 7, visual_id: 0 }).unwrap(),
        (7, vec![0])
    );
    assert_eq!(
        window_request(NativeWindowHandle::Xlib { window: 0, visual_id: 0 }).unwrap_err().kind,
        ErrorKind::BadNativeWindow
    );
    assert_eq!(buffer_age(&ExtensionSet::from_str("GLX_EXT_buffer_age"), Some(2)), 2);
    assert_eq!(buffer_age(&ExtensionSet::new(), None), 0);
}

#[test]
fn glx_swap_interval_tries_extensions_in_order() {
    let exts = ExtensionSet::from_str("GLX_SGI_swap_control GLX_EXT_swap_control GLX_MESA_swap_control");
    let (n, methods) = swap_interval_plan(true, &exts, SwapInterval::Wait(2)).unwrap();
    assert_eq!(n, 2);
    assert_eq!(methods, vec![SwapMethod::Ext, SwapMethod::Mesa, SwapMethod::Sgi]);
    assert!(swap_interval_plan(false, &exts, SwapInterval::DontWait).unwrap_err().not_supported());
    assert!(vendor_swap_applied(0));
    assert!(!vendor_swap_applied(5));
    assert_eq!(
        swap_interval_result(vec![SwapOutcome::NotApplied, SwapOutcome::Applied]),
        Ok(())
    );
    let e = Error::from_kind(ErrorKind::BadMatch);
    assert_eq!(
        swap_interval_result(vec![SwapOutcome::Failed(e.clone()), SwapOutcome::Applied]),
        Err(e)
    );
    assert_eq!(
        swap_interval_result(vec![SwapOutcome::NotApplied]).unwrap_err().kind,
        ErrorKind::BadContext
    );
}

#[test]
fn glx_make_current_guard() {
    let mut guard = GlxMakeCurrentGuard::new(5, 6, 7, 8, true, "").unwrap();
    assert_eq!(guard.old_context(), Some(8));
    assert_eq!(guard.restore_call(), (6, 7, 8));
    guard.invalidate();
    assert_eq!(guard.old_context(), None);
    assert_eq!(guard.restore_call(), (6, 0, 0));
    let fresh = GlxMakeCurrentGuard::new(5, 0, 7, 8, true, "").unwrap();
    assert_eq!(fresh.restore_call(), (5, 7, 8));
    assert!(GlxMakeCurrentGuard::new(5, 0, 7, 8, false, "BadMatch").is_err());
}
