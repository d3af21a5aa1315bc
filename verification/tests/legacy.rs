use glutin::context::{ReleaseBehavior, Robustness};
use glutin::egl::legacy::{
    bind_outcome, bind_plan, check_make_current, check_surface_alive, choose_config_descriptor,
    config_attribs, configs_for_selector, context_created, context_versions,
    create_context_failure, first_created_context, selected_config, damage_swap_arguments,
    disables_vsync_first, display_extensions, filter_by_vsync, flatten_rects,
    legacy_context_attributes, native_display_call, pbuffer_attributes, rebind_api_call,
    rebind_outcome, BindCandidate, BindPlan, ChosenConfigValues, DisplayCall, DisplayInternal,
    NativeDisplay, SwapIntervalRange,
};
use glutin::error::{ContextError, CreationError};
use glutin::extensions::{bytes_equal, split_at_spaces, ExtensionSet};
use glutin::legacy::{ConfigAttribs, ConfigBuilder, GlApi, GlRequest, GlVersion, Rect};

fn builder() -> ConfigBuilder {
    ConfigBuilder {
        version: GlRequest::Latest,
        window_surface_support: true,
        pbuffer_support: false,
        hardware_accelerated: None,
        color_bits: None,
        alpha_bits: None,
        depth_bits: None,
        stencil_bits: None,
        double_buffer: None,
        multisampling: None,
        stereoscopy: false,
        x11_visual_xid: None,
        release_behavior: ReleaseBehavior::Flush,
        vsync: None,
    }
}

#[test]
fn extension_lists_split_at_spaces() {
    let pieces = split_at_spaces(b"EGL_a  EGL_b");
    assert_eq!(pieces, vec![b"EGL_a".to_vec(), Vec::new(), b"EGL_b".to_vec()]);
    assert_eq!(split_at_spaces(b""), vec![Vec::<u8>::new()]);
    let set = ExtensionSet::from_str("EGL_KHR_image EGL_EXT_buffer_age ");
    assert!(set.contains("EGL_KHR_image"));
    assert!(set.contains("EGL_EXT_buffer_age"));
    assert!(set.contains(""));
    assert!(!set.contains("EGL_KHR"));
    assert!(!ExtensionSet::new().contains(""));
    assert!(bytes_equal(b"ab", b"ab"));
    assert!(!bytes_equal(b"ab", b"abc"));
}

#[test]
fn extension_split_joins_back() {
    let list = "GLX_ARB_multisample GLX_EXT_swap_control";
    let pieces = split_at_spaces(list.as_bytes());
    assert_eq!(pieces.join(&b' '), list.as_bytes().to_vec());
}

#[test]
fn legacy_descriptor_for_opengl() {
    let cb = ConfigBuilder {
        hardware_accelerated: Some(true),
        color_bits: Some(24),
        alpha_bits: Some(8),
        depth_bits: Some(24),
        multisampling: Some(4),
        x11_visual_xid: Some(0x21),
        ..builder()
    };
    let attrs = choose_config_descriptor((1, 4), GlApi::OpenGl, None, &cb).unwrap();
    assert_eq!(
        attrs,
        vec![
            0x303F, 0x308E, 0x3033, 0x4, 0x3040, 0x8, 0x3042, 0x8, 0x3027, 0x3038, 0x3024, 8,
            0x3023, 8, 0x3022, 8, 0x3021, 8, 0x3025, 24, 0x3031, 4, 0x302E, 0x21, 0x3038
        ]
    );
    assert_eq!(
        choose_config_descriptor((1, 2), GlApi::OpenGl, None, &cb),
        Err(CreationError::NoAvailableConfig)
    );
    let double = ConfigBuilder { double_buffer: Some(true), ..builder() };
    assert_eq!(
        choose_config_descriptor((1, 4), GlApi::OpenGl, None, &double),
        Err(CreationError::NoAvailableConfig)
    );
}

#[test]
fn legacy_descriptor_color_split() {
    let cb = ConfigBuilder { color_bits: Some(16), pbuffer_support: true, ..builder() };
    let attrs =
        choose_config_descriptor((1, 4), GlApi::OpenGlEs, Some(GlVersion(2, 0)), &cb).unwrap();
    assert_eq!(
        attrs,
        vec![
            0x303F, 0x308E, 0x3033, 0x5, 0x3040, 0x4, 0x3042, 0x4, 0x3024, 5, 0x3023, 6, 0x3022,
            5, 0x3038
        ]
    );
    let old = choose_config_descriptor((1, 1), GlApi::OpenGlEs, Some(GlVersion(1, 0)), &builder())
        .unwrap();
    assert_eq!(old, vec![0x3033, 0x4, 0x3038]);
}

#[test]
fn legacy_vsync_filter() {
    let configs = vec![
        SwapIntervalRange { config: 1, min_swap_interval: Some(0), max_swap_interval: Some(1) },
        SwapIntervalRange { config: 2, min_swap_interval: Some(2), max_swap_interval: Some(4) },
        SwapIntervalRange { config: 3, min_swap_interval: Some(1), max_swap_interval: Some(1) },
    ];
    assert_eq!(filter_by_vsync(&configs, true), Ok(vec![1, 3]));
    assert_eq!(filter_by_vsync(&configs, false), Ok(vec![1]));
    let broken = vec![SwapIntervalRange { config: 1, min_swap_interval: None, max_swap_interval: Some(1) }];
    assert!(matches!(filter_by_vsync(&broken, true), Err(CreationError::OsError(_))));
}

#[test]
fn legacy_chosen_config_attributes() {
    let values = ChosenConfigValues {
        min_swap_interval: 0,
        max_swap_interval: 1,
        config_caveat: 0x3050,
        red_size: 8,
        green_size: 8,
        blue_size: 8,
        alpha_size: 8,
        depth_size: 24,
        stencil_size: 8,
        samples: 1,
    };
    let a = config_attribs(GlApi::OpenGl, Some(GlVersion(3, 3)), &builder(), &values);
    assert!(a.vsync);
    assert!(!a.hardware_accelerated);
    assert_eq!(a.color_bits, 24);
    assert_eq!(a.multisampling, None);
    assert!(a.double_buffer);
    let multi = config_attribs(GlApi::OpenGl, None, &builder(), &ChosenConfigValues { samples: 4, ..values });
    assert_eq!(multi.multisampling, Some(4));
}

#[test]
fn legacy_api_binding() {
    let latest = bind_plan(GlRequest::Latest, (1, 4));
    assert_eq!(
        latest,
        BindPlan::Try(vec![
            BindCandidate { bind_api: 0x30A2, version: None, api: GlApi::OpenGl },
            BindCandidate { bind_api: 0x30A0, version: None, api: GlApi::OpenGlEs },
        ])
    );
    assert_eq!(bind_outcome(&latest, &vec![false, true]), Ok((None, GlApi::OpenGlEs)));
    assert_eq!(
        bind_outcome(&latest, &vec![false, false]),
        Err(CreationError::OpenGlVersionNotSupported)
    );
    assert_eq!(bind_plan(GlRequest::Latest, (1, 1)), BindPlan::NoBind(None, GlApi::OpenGlEs));
    assert_eq!(
        bind_plan(GlRequest::Specific(GlApi::OpenGl, GlVersion(3, 3)), (1, 3)),
        BindPlan::Refuse
    );
    assert_eq!(
        bind_plan(GlRequest::Specific(GlApi::WebGl, GlVersion(1, 0)), (1, 5)),
        BindPlan::Refuse
    );
    assert_eq!(rebind_api_call(GlApi::OpenGl, (1, 4)), Some(0x30A2));
    assert_eq!(rebind_api_call(GlApi::OpenGlEs, (1, 2)), Some(0x30A0));
    assert_eq!(rebind_api_call(GlApi::OpenGl, (1, 3)), None);
    assert_eq!(rebind_api_call(GlApi::OpenGlEs, (1, 1)), None);
    assert_eq!(rebind_outcome(false), Err(CreationError::OpenGlVersionNotSupported));
}

#[test]
fn legacy_native_display_call() {
    let exts = ExtensionSet::from_str("EGL_EXT_platform_x11 EGL_KHR_platform_gbm");
    assert_eq!(
        native_display_call(NativeDisplay::X11(Some(5)), &exts, true, true),
        DisplayCall::PlatformExt { platform: 0x31D5, display: 5 }
    );
    assert_eq!(
        native_display_call(NativeDisplay::X11(None), &exts, true, false),
        DisplayCall::Legacy { display: 0 }
    );
    assert_eq!(
        native_display_call(NativeDisplay::Gbm(Some(6)), &exts, true, true),
        DisplayCall::Platform { platform: 0x31D7, display: 6 }
    );
    assert_eq!(
        native_display_call(NativeDisplay::Other(None), &exts, true, true),
        DisplayCall::Legacy { display: 0 }
    );
}

#[test]
fn legacy_display_internal() {
    assert!(matches!(DisplayInternal::new(0, Some((1, 4)), None), Err(CreationError::OsError(_))));
    assert!(matches!(DisplayInternal::new(5, None, None), Err(CreationError::OsError(_))));
    let d = DisplayInternal::new(5, Some((1, 4)), Some("EGL_KHR_create_context EGL_x")).unwrap();
    assert_eq!(d.display(), 5);
    assert_eq!(d.egl_version(), (1, 4));
    assert!(d.has_extension("EGL_KHR_create_context"));
    let old = DisplayInternal::new(5, Some((1, 1)), Some("EGL_KHR_create_context")).unwrap();
    assert!(!old.has_extension("EGL_KHR_create_context"));
    assert!(!display_extensions((1, 1), Some("EGL_x")).contains("EGL_x"));
}

#[test]
fn legacy_context_attribute_lists() {
    let exts = ExtensionSet::from_str("EGL_KHR_create_context");
    assert_eq!(
        legacy_context_attributes((1, 4), &exts, GlApi::OpenGl, GlVersion(3, 2), Robustness::NotRobust, true)
            .unwrap(),
        vec![0x3098, 3, 0x30FB, 2, 0x3038]
    );
    assert_eq!(
        legacy_context_attributes(
            (1, 5),
            &ExtensionSet::new(),
            GlApi::OpenGl,
            GlVersion(3, 2),
            Robustness::RobustLoseContextOnReset,
            true
        )
        .unwrap(),
        vec![0x3098, 3, 0x30FB, 2, 0x31BD, 0x31BF, 0x31B0, 1, 0x30FC, 0x31B2, 0x3038]
    );
    assert_eq!(
        legacy_context_attributes((1, 4), &exts, GlApi::OpenGl, GlVersion(3, 2), Robustness::RobustNoResetNotification, false),
        Err(CreationError::RobustnessNotSupported)
    );
    assert_eq!(
        legacy_context_attributes((1, 3), &ExtensionSet::new(), GlApi::OpenGlEs, GlVersion(2, 0), Robustness::NotRobust, false)
            .unwrap(),
        vec![0x3098, 2, 0x3038]
    );
    assert_eq!(
        legacy_context_attributes((1, 2), &ExtensionSet::new(), GlApi::OpenGlEs, GlVersion(2, 0), Robustness::NotRobust, false)
            .unwrap(),
        vec![0x3038]
    );
    assert_eq!(create_context_failure(0x3009), Some(CreationError::OpenGlVersionNotSupported));
    assert_eq!(create_context_failure(0x3003), None);
}

fn attribs(api: GlApi, version: Option<GlVersion>) -> ConfigAttribs {
    ConfigAttribs {
        api,
        version,
        vsync: false,
        window_surface_support: true,
        pbuffer_support: false,
        hardware_accelerated: true,
        color_bits: 24,
        alpha_bits: 8,
        depth_bits: 24,
        stencil_bits: 8,
        stereoscopy: false,
        double_buffer: true,
        multisampling: None,
        srgb: false,
    }
}

#[test]
fn legacy_context_versions() {
    let none = ExtensionSet::new();
    assert_eq!(
        context_versions(&attribs(GlApi::OpenGl, None), false, &none),
        Ok((vec![GlVersion(3, 2), GlVersion(3, 1), GlVersion(1, 0)], false))
    );
    assert_eq!(
        context_versions(&attribs(GlApi::OpenGlEs, None), false, &none),
        Ok((vec![GlVersion(2, 0), GlVersion(1, 0)], false))
    );
    assert_eq!(
        context_versions(&attribs(GlApi::OpenGl, Some(GlVersion(4, 5))), false, &none),
        Ok((vec![GlVersion(4, 5)], true))
    );
    assert_eq!(
        context_versions(&attribs(GlApi::OpenGl, None), true, &none),
        Err(CreationError::NotSupported("EGL surfaceless not supported".to_string()))
    );
    assert!(context_versions(
        &attribs(GlApi::OpenGl, None),
        true,
        &ExtensionSet::from_str("EGL_KHR_surfaceless_context")
    )
    .is_ok());
}

#[test]
fn legacy_presenting() {
    assert_eq!(check_make_current(Some(1), 0x3000), Ok(()));
    assert_eq!(check_make_current(None, 0x3000), Ok(()));
    assert_eq!(check_make_current(Some(0), 0x300E), Err(ContextError::ContextLost));
    assert_eq!(check_surface_alive(0), Err(ContextError::ContextLost));
    let rects = [Rect { x: 1, y: 2, width: 3, height: 4 }, Rect { x: 5, y: 6, width: 7, height: 8 }];
    assert_eq!(flatten_rects(&rects), vec![1, 2, 3, 4, 5, 6, 7, 8]);
    assert_eq!(flatten_rects(&rects).len(), 4 * rects.len());
    let (flat, n) = damage_swap_arguments(true, 9, &rects).unwrap();
    assert_eq!((flat.len(), n), (8, 2));
    assert!(matches!(damage_swap_arguments(false, 9, &rects), Err(ContextError::OsError(_))));
    assert_eq!(damage_swap_arguments(true, 0, &rects), Err(ContextError::ContextLost));
    assert_eq!(pbuffer_attributes(32, 16), vec![0x3057, 32, 0x3056, 16, 0x3038]);
    assert!(disables_vsync_first(false, false, false));
    assert!(!disables_vsync_first(true, false, false));
    assert!(!disables_vsync_first(false, true, false));
}

#[test]
fn legacy_context_creation_results() {
    assert_eq!(context_created(0x55, 0x3000), Ok(0x55));
    assert_eq!(context_created(0, 0x3009), Err(CreationError::OpenGlVersionNotSupported));
    assert_eq!(context_created(0, 0x3004), Err(CreationError::OpenGlVersionNotSupported));
}

#[test]
fn legacy_context_takes_the_first_version_that_works() {
    let v = CreationError::OpenGlVersionNotSupported;
    assert_eq!(first_created_context(vec![Err(v.clone()), Ok(7), Ok(9)], false), Ok((1, 7)));
    assert_eq!(first_created_context(vec![Ok(3), Err(v.clone())], false), Ok((0, 3)));
    assert_eq!(
        first_created_context(vec![Err(v.clone()), Err(CreationError::RobustnessNotSupported)], false),
        Err(CreationError::OpenGlVersionNotSupported)
    );
    assert_eq!(
        first_created_context(vec![Err(CreationError::RobustnessNotSupported)], true),
        Err(CreationError::RobustnessNotSupported)
    );
    assert_eq!(
        first_created_context(vec![Err(CreationError::RobustnessNotSupported)], false),
        Err(CreationError::OpenGlVersionNotSupported)
    );
    assert_eq!(first_created_context(Vec::new(), false), Err(CreationError::OpenGlVersionNotSupported));
}

#[test]
fn legacy_selector_gets_the_kept_configs() {
    let unread = |config| SwapIntervalRange { config, min_swap_interval: None, max_swap_interval: None };
    assert_eq!(configs_for_selector(&vec![unread(4), unread(6)], None), Ok(vec![4, 6]));
    assert_eq!(configs_for_selector(&Vec::new(), None), Err(CreationError::NoAvailableConfig));
    assert!(matches!(
        configs_for_selector(&vec![unread(4)], Some(true)),
        Err(CreationError::OsError(_))
    ));
    let ranged = vec![
        SwapIntervalRange { config: 1, min_swap_interval: Some(1), max_swap_interval: Some(1) },
        SwapIntervalRange { config: 2, min_swap_interval: Some(0), max_swap_interval: Some(4) },
    ];
    assert_eq!(configs_for_selector(&ranged, Some(false)), Ok(vec![2]));
    assert_eq!(configs_for_selector(&ranged, Some(true)), Ok(vec![1, 2]));
    let none_allowed =
        vec![SwapIntervalRange { config: 1, min_swap_interval: Some(1), max_swap_interval: Some(1) }];
    assert_eq!(configs_for_selector(&none_allowed, Some(false)), Err(CreationError::NoAvailableConfig));
    assert_eq!(selected_config(Ok(12)), Ok(12));
    assert_eq!(selected_config(Err(())), Err(CreationError::NoAvailableConfig));
}

#[test]
fn legacy_descriptor_errors_come_before_the_release_behavior() {
    let no_flush = ConfigBuilder { release_behavior: ReleaseBehavior::NoFlush, stereoscopy: true, ..builder() };
    assert_eq!(
        choose_config_descriptor((1, 4), GlApi::OpenGl, None, &no_flush),
        Err(CreationError::NoAvailableConfig)
    );
    let old_egl = ConfigBuilder { release_behavior: ReleaseBehavior::NoFlush, ..builder() };
    assert_eq!(
        choose_config_descriptor((1, 2), GlApi::OpenGl, None, &old_egl),
        Err(CreationError::NoAvailableConfig)
    );
}
