use glutin::config::{
    Api, ColorBufferType, ConfigSurfaceTypes, ConfigTemplate, ConfigTemplateBuilder,
    DisplayFeatures, NativeDisplayHandle, NativeWindowHandle,
};
use glutin::context::{ContextApi, RawContext, Version};
use glutin::egl::config::{config_attributes, filter_candidates, ConfigCandidate};
use glutin::egl::context::{context_api, context_api_from_client_type, shared_context};
use glutin::egl::device::{check_enumeration_support, device_string_path, query_failure, Device};
use glutin::egl::display::{
    check_display, display_chain_outcome, ext_display_request, falls_back, initialized_version,
    khr_display_request, legacy_display_request, EglDisplay,
};
use glutin::egl::make_current_guard::{MakeCurrentGuard, SavedBinding};
use glutin::egl::surface::{
    attributes_as_int, buffer_age, damage_swap, native_window_plan, pbuffer_attributes,
    pixmap_attributes, swap_interval_value, wayland_window_created, window_attributes, DamageSwap,
    NativeWindow, NativeWindowPlan,
};
use glutin::egl::sync::{
    check_fence_fd, check_native_fence, check_wait_support, client_wait_outcome,
    client_wait_request, is_signalled, timeout_from_nanos, MAX_TIMEOUT_NANOS,
};
use glutin::egl::{check_call, check_error, check_handle};
use glutin::error::{Error, ErrorKind};
use glutin::extensions::ExtensionSet;
use glutin::surface::SwapInterval;

#[test]
fn egl_error_codes_map_to_kinds() {
    assert!(check_error(0x3000).is_ok());
    let e = check_error(0x3003).unwrap_err();
    assert_eq!(e.kind, ErrorKind::OutOfMemory);
    assert_eq!(e.raw_code, Some(0x3003));
    assert_eq!(check_error(0x3004).unwrap_err().kind, ErrorKind::BadAttribute);
    assert_eq!(check_error(0x300E).unwrap_err().kind, ErrorKind::ContextLost);
    assert_eq!(check_error(0x1234).unwrap_err().kind, ErrorKind::Misc);
}

#[test]
fn egl_call_and_handle_checks() {
    assert!(check_call(true, 0x3009).is_ok());
    assert!(check_call(false, 0x3000).is_ok());
    assert_eq!(check_call(false, 0x3009).unwrap_err().kind, ErrorKind::BadMatch);
    assert_eq!(check_handle(7, 0x3000), Ok(7));
    assert_eq!(check_handle(0, 0x300D).unwrap_err().kind, ErrorKind::BadSurface);
}

#[test]
fn egl_default_template_attribute_list() {
    let template = ConfigTemplateBuilder::new().with_depth_size(24).with_stencil_size(8).build();
    let attrs = config_attributes(&template, &DisplayFeatures::empty()).unwrap();
    assert_eq!(
        attrs,
        vec![
            0x303F, 0x308E, 0x3024, 8, 0x3023, 8, 0x3022, 8, 0x3021, 8, 0x3025, 24, 0x3026, 8,
            0x3033, 0x4, 0x3038
        ]
    );
}

#[test]
fn egl_float_pixels_need_the_feature() {
    let template = ConfigTemplateBuilder::new().with_depth_size(24).with_stencil_size(8).with_float_pixels(true).build();
    let e = config_attributes(&template, &DisplayFeatures::empty()).unwrap_err();
    assert!(e.not_supported());
    let mut features = DisplayFeatures::empty();
    features.float_pixel_format = true;
    let attrs = config_attributes(&template, &features).unwrap();
    assert_eq!(&attrs[8..10], &[0x3339, 0x333B]);
}

#[test]
fn egl_luminance_multisampled_pbuffer_template() {
    let template = ConfigTemplateBuilder::new().with_depth_size(24).with_stencil_size(8)
        .with_buffer_type(ColorBufferType::Luminance(16))
        .with_multisampling(4)
        .with_surface_type(ConfigSurfaceTypes::pbuffer())
        .with_api(Api::gles2())
        .with_pbuffer_sizes(640, 480)
        .prefer_hardware_accelerated(Some(false))
        .with_swap_interval(Some(0), Some(2))
        .build();
    let attrs = config_attributes(&template, &DisplayFeatures::empty()).unwrap();
    assert_eq!(
        attrs,
        vec![
            0x303F, 0x308F, 0x303D, 16, 0x3021, 8, 0x3025, 24, 0x3026, 8, 0x3033, 0x1, 0x3027,
            0x3050, 0x303B, 0, 0x303C, 2, 0x3032, 1, 0x3031, 4, 0x3040, 0x4, 0x302C, 640, 0x302A,
            480, 0x3038
        ]
    );
}

#[test]
fn egl_candidates_filtered_by_visual_and_transparency() {
    let template = ConfigTemplate {
        transparency: true,
        native_window: Some(NativeWindowHandle::Xlib { window: 5, visual_id: 33 }),
        ..ConfigTemplateBuilder::new().with_depth_size(24).with_stencil_size(8).build()
    };
    let candidates = vec![
        ConfigCandidate { raw: 1, native_visual: 33, supports_transparency: Some(true) },
        ConfigCandidate { raw: 2, native_visual: 34, supports_transparency: Some(true) },
        ConfigCandidate { raw: 3, native_visual: 33, supports_transparency: Some(false) },
        ConfigCandidate { raw: 4, native_visual: 33, supports_transparency: None },
    ];
    let kept: Vec<usize> = filter_candidates(&template, &candidates).iter().map(|c| c.raw).collect();
    assert_eq!(kept, vec![1, 4]);
}

#[test]
fn egl_context_api_choice() {
    let v15 = Version::new(1, 5);
    let gl_and_es3 = Api { bits: 1 | 8 };
    assert_eq!(context_api(None, v15, gl_and_es3).unwrap(), (0x30A2, None));
    let es2_only = Api::gles2();
    assert_eq!(context_api(None, v15, es2_only).unwrap(), (0x30A0, Some(Version::new(2, 0))));
    assert!(context_api(Some(ContextApi::OpenGl(None)), Version::new(1, 3), gl_and_es3).is_err());
    assert_eq!(
        context_api(Some(ContextApi::Gles(None)), v15, gl_and_es3).unwrap(),
        (0x30A0, Some(Version::new(3, 0)))
    );
    assert_eq!(context_api_from_client_type(Some(0x30A2)), ContextApi::OpenGl(None));
    assert_eq!(context_api_from_client_type(None), ContextApi::Gles(None));
}

#[test]
fn egl_shared_context_must_be_egl() {
    assert_eq!(shared_context(None), Ok(0));
    assert_eq!(shared_context(Some(RawContext::Egl(9))), Ok(9));
    assert!(shared_context(Some(RawContext::Glx(9))).unwrap_err().not_supported());
}

#[test]
fn device_enumeration_needs_extensions() {
    assert_eq!(check_enumeration_support(None).unwrap_err().kind, ErrorKind::NotFound);
    assert!(check_enumeration_support(Some(&ExtensionSet::from_str("EGL_EXT_device_base"))).is_ok());
    assert!(check_enumeration_support(Some(&ExtensionSet::from_str(
        "EGL_EXT_device_enumeration EGL_EXT_device_query"
    )))
    .is_ok());
    let e = check_enumeration_support(Some(&ExtensionSet::from_str("EGL_KHR_other"))).unwrap_err();
    assert_eq!(
        e.kind,
        ErrorKind::NotSupported("Enumerating devices is not supported by the EGL instance")
    );
    let e = check_enumeration_support(Some(&ExtensionSet::from_str("EGL_EXT_device_enumeration")))
        .unwrap_err();
    assert_eq!(
        e.kind,
        ErrorKind::NotSupported(
            "EGL_EXT_device_enumeration without EGL_EXT_device_query, buggy driver?"
        )
    );
}

#[test]
fn device_query_failure_prefers_the_egl_error() {
    assert_eq!(query_failure(0x3000, "x").kind, ErrorKind::NotSupported("x"));
    assert_eq!(query_failure(0x300C, "x").kind, ErrorKind::BadParameter);
}

#[test]
fn device_keeps_name_only_with_query_name() {
    let with = Device::from_parts(
        0x10,
        ExtensionSet::from_str("EGL_EXT_device_query_name EGL_EXT_device_drm"),
        Some("renderer".to_string()),
        Some("vendor".to_string()),
    );
    assert_eq!(with.name(), Some("renderer"));
    assert_eq!(with.vendor(), Some("vendor"));
    assert_eq!(with.raw_device(), 0x10);
    assert!(with.extensions().contains("EGL_EXT_device_drm"));
    assert_eq!(with.drm_device_node_query(), Some(0x3233));
    assert_eq!(with.drm_render_device_node_query(), None);

    let without = Device::from_parts(
        0x20,
        ExtensionSet::from_str("EGL_EXT_device_drm_render_node"),
        Some("renderer".to_string()),
        Some("vendor".to_string()),
    );
    assert_eq!(without.name(), None);
    assert_eq!(without.vendor(), None);
    assert_eq!(without.drm_device_node_query(), None);
    assert_eq!(without.drm_render_device_node_query(), Some(0x3377));
    assert!(Device::needs_name_query(&ExtensionSet::from_str("a EGL_EXT_device_query_name")));
}

#[test]
fn device_node_paths() {
    assert_eq!(device_string_path(Some(b"/dev/dri/card0".as_slice())), Some("/dev/dri/card0".to_string()));
    assert_eq!(device_string_path(Some("/dev/dri/é".as_bytes())), Some("/dev/dri/é".to_string()));
    assert_eq!(device_string_path(Some([0x2f, 0xff, 0x61].as_slice())), None);
    assert_eq!(device_string_path(None), None);
    let drm = Device::from_parts(0x10, ExtensionSet::from_str("EGL_EXT_device_drm"), None, None);
    assert_eq!(drm.drm_device_node_path(Some(b"/dev/dri/card1".as_slice())), Some("/dev/dri/card1".to_string()));
    assert_eq!(drm.drm_render_device_node_path(Some(b"/dev/dri/renderD128".as_slice())), None);
    let render =
        Device::from_parts(0x11, ExtensionSet::from_str("EGL_EXT_device_drm_render_node"), None, None);
    assert_eq!(render.drm_device_node_path(Some(b"/dev/dri/card1".as_slice())), None);
    assert_eq!(
        render.drm_render_device_node_path(Some(b"/dev/dri/renderD128".as_slice())),
        Some("/dev/dri/renderD128".to_string())
    );
    assert_eq!(render.drm_render_device_node_path(None), None);
}

#[test]
fn device_clone_keeps_everything() {
    let d = Device::from_parts(
        0x30,
        ExtensionSet::from_str("EGL_EXT_device_query_name EGL_EXT_device_drm"),
        Some("renderer".to_string()),
        Some("vendor".to_string()),
    );
    let c = d.clone();
    assert_eq!(c, d);
    assert_eq!(c.name(), Some("renderer"));
    assert!(c.extensions().contains("EGL_EXT_device_drm"));
    assert!(c.extensions().contains("EGL_EXT_device_query_name"));
}

#[test]
fn platform_display_requests() {
    let exts = ExtensionSet::from_str("EGL_KHR_platform_x11 EGL_EXT_platform_xcb");
    let xlib = NativeDisplayHandle::Xlib { display: 0x100, screen: 2 };
    let (platform, display, attrs) = khr_display_request(true, xlib, &exts).unwrap();
    assert_eq!((platform, display), (0x31D5, 0x100));
    assert_eq!(attrs, vec![0x31D6, 2, 0x3038]);
    assert_eq!(
        khr_display_request(false, xlib, &exts).unwrap_err().kind,
        ErrorKind::NotSupported("eglGetPlatformDisplay is not supported")
    );
    let xcb = NativeDisplayHandle::Xcb { connection: 0x200, screen: 1 };
    let (platform, display, attrs) = ext_display_request(true, xcb, &exts).unwrap();
    assert_eq!((platform, display), (0x31DC, 0x200));
    assert_eq!(attrs, vec![0x31DC, 1, 0x3038]);
    assert_eq!(
        ext_display_request(true, xlib, &exts).unwrap_err().kind,
        ErrorKind::NotSupported("provided display handle is not supported")
    );
    assert_eq!(legacy_display_request(NativeDisplayHandle::Android), Ok(0));
    assert!(legacy_display_request(NativeDisplayHandle::Wayland { display: 1 }).is_err());
}

#[test]
fn display_chain_stops_on_bad_attribute() {
    let bad_attribute = Error::from_kind(ErrorKind::BadAttribute);
    assert!(!falls_back(&bad_attribute));
    assert!(falls_back(&Error::from_kind(ErrorKind::NotSupported("x"))));
    assert_eq!(display_chain_outcome(Ok(5), None, None), Ok(EglDisplay::Khr(5)));
    assert_eq!(
        display_chain_outcome(Err(bad_attribute.clone()), None, None),
        Err(bad_attribute.clone())
    );
    let unsupported = Error::from_kind(ErrorKind::NotSupported("x"));
    assert_eq!(
        display_chain_outcome(Err(unsupported.clone()), Some(Ok(6)), None),
        Ok(EglDisplay::Ext(6))
    );
    assert_eq!(
        display_chain_outcome(Err(unsupported.clone()), Some(Err(unsupported.clone())), Some(Ok(7))),
        Ok(EglDisplay::Legacy(7))
    );
    assert_eq!(check_display(0, 0x3008).unwrap_err().kind, ErrorKind::BadDisplay);
    assert_eq!(initialized_version(Some((1, 5)), 0x3000), Ok(Version::new(1, 5)));
    assert_eq!(
        initialized_version(None, 0x3001).unwrap_err().kind,
        ErrorKind::InitializationFailed
    );
}

#[test]
fn surface_attribute_lists() {
    assert_eq!(pbuffer_attributes(64, 32), vec![0x3057, 64, 0x3056, 32, 0x3038]);
    assert_eq!(pixmap_attributes(Some(true), true), vec![0x309D, 0x3089, 0x3038]);
    assert_eq!(pixmap_attributes(Some(false), true), vec![0x309D, 0x308A, 0x3038]);
    assert_eq!(pixmap_attributes(Some(true), false), vec![0x3038]);
    assert_eq!(window_attributes(true, None, true), vec![0x3086, 0x3085, 0x3038]);
    assert_eq!(
        window_attributes(false, Some(true), true),
        vec![0x3086, 0x3084, 0x309D, 0x3089, 0x3038]
    );
    assert_eq!(attributes_as_int(&vec![0x3086, 0x3084, 0x3038]), vec![0x3086, 0x3084, 0x3038]);
}

#[test]
fn native_window_plans() {
    assert_eq!(
        native_window_plan(NativeWindowHandle::Wayland { surface: 3 }),
        Ok(NativeWindowPlan::CreateWaylandWindow(3))
    );
    assert_eq!(
        native_window_plan(NativeWindowHandle::Xlib { window: 9, visual_id: 1 }),
        Ok(NativeWindowPlan::Ready(NativeWindow::Xlib(9)))
    );
    assert_eq!(
        native_window_plan(NativeWindowHandle::Xcb { window: 0, visual_id: 1 }).unwrap_err().kind,
        ErrorKind::BadNativeWindow
    );
    assert!(native_window_plan(NativeWindowHandle::Other).unwrap_err().not_supported());
    assert_eq!(wayland_window_created(0).unwrap_err().kind, ErrorKind::OutOfMemory);
    assert_eq!(wayland_window_created(4), Ok(NativeWindow::Wayland(4)));
}

#[test]
fn swapping_and_surface_queries() {
    let both = ExtensionSet::from_str(
        "EGL_EXT_swap_buffers_with_damage EGL_KHR_swap_buffers_with_damage EGL_EXT_buffer_age",
    );
    assert_eq!(damage_swap(&both), DamageSwap::Khr);
    assert_eq!(
        damage_swap(&ExtensionSet::from_str("EGL_EXT_swap_buffers_with_damage")),
        DamageSwap::Ext
    );
    assert_eq!(damage_swap(&ExtensionSet::new()), DamageSwap::Plain);
    assert_eq!(buffer_age(&both, Some(3)), 3);
    assert_eq!(buffer_age(&ExtensionSet::new(), None), 0);
    assert_eq!(swap_interval_value(SwapInterval::DontWait), 0);
    assert_eq!(swap_interval_value(SwapInterval::Wait(2)), 2);
}

#[test]
fn sync_wait_support_and_timeouts() {
    let none = ExtensionSet::new();
    assert!(check_wait_support(Version::new(1, 5), &none).is_ok());
    assert!(check_wait_support(Version::new(1, 4), &ExtensionSet::from_str("EGL_KHR_wait_sync"))
        .is_ok());
    assert!(check_wait_support(Version::new(1, 4), &none).unwrap_err().not_supported());
    assert_eq!(timeout_from_nanos(1_000), 1_000);
    assert_eq!(timeout_from_nanos(u128::from(u64::MAX)), MAX_TIMEOUT_NANOS);
    assert_eq!(timeout_from_nanos(u128::MAX), u64::MAX - 1);
    assert_eq!(client_wait_request(None, true), (1, u64::MAX));
    assert_eq!(
        client_wait_request(Some(std::time::Duration::from_millis(2).as_nanos()), false),
        (0, 2_000_000)
    );
    assert_eq!(client_wait_request(Some(u128::MAX), false), (0, u64::MAX - 1));
    assert_eq!(client_wait_outcome(0x30F6, 0x3000), Ok(true));
    assert_eq!(client_wait_outcome(0x30F5, 0x3000), Ok(false));
    assert_eq!(client_wait_outcome(0, 0x300C).unwrap_err().kind, ErrorKind::BadParameter);
    assert!(is_signalled(0x30F2));
    assert!(!is_signalled(0x30F3));
    assert!(check_native_fence(0x3144).is_ok());
    assert!(check_native_fence(0x30F9).is_err());
    assert_eq!(check_fence_fd(12, 0x3000), Ok(12));
    assert!(check_fence_fd(-1, 0x300C).is_err());
}

#[test]
fn make_current_guard_restores_previous_binding() {
    let old = SavedBinding { draw: 1, read: 2, context: 3 };
    let guard = MakeCurrentGuard::new(10, 11, old, true, 0x3000).unwrap();
    assert_eq!(guard.restore_call(), Some((11, old)));
    let no_display = MakeCurrentGuard::new(10, 0, old, true, 0x3000).unwrap();
    assert_eq!(
        no_display.restore_call(),
        Some((10, SavedBinding { draw: 0, read: 0, context: 0 }))
    );
    let e = MakeCurrentGuard::new(10, 11, old, false, 0x3009).unwrap_err();
    assert_eq!(e.raw_code, Some(0x3009));
    let keep = MakeCurrentGuard::new_keep(10, 11, old);
    assert_eq!(keep.restore_call(), None);
}

#[test]
fn make_current_guard_forgets_destroyed_binding() {
    let old = SavedBinding { draw: 1, read: 2, context: 3 };
    let mut guard = MakeCurrentGuard::new(10, 11, old, true, 0x3000).unwrap();
    guard.if_any_same_then_invalidate(5, 6, 7);
    assert_eq!(guard.restore_call(), Some((11, old)));
    guard.if_any_same_then_invalidate(5, 6, 3);
    assert_eq!(
        guard.restore_call(),
        Some((11, SavedBinding { draw: 0, read: 0, context: 0 }))
    );
    let mut keep = MakeCurrentGuard::new_keep(10, 11, old);
    keep.if_any_same_then_invalidate(1, 0, 0);
    assert_eq!(keep.restore_call(), Some((11, SavedBinding { draw: 0, read: 0, context: 0 })));
}
