//! What the attribute list of a legacy `eglCreateContext` asks of a context.
use vstd::prelude::*;
use vstd::string::StringSliceAdditionalSpecFns;

use super::config::pair;
use super::consts as egl;
use super::legacy::{
    api_part, api_request_defined, color_part, descriptor_head, descriptor_tail,
    descriptor_tail_color, descriptor_tail_samples, descriptor_tail_sizes,
    legacy_robustness_part, spec_legacy_context_attributes,
};
use crate::attributes::{
    attribute_value, lemma_attribute_value_concat, lemma_attribute_value_pair,
    lemma_attribute_value_short, lemma_optional_pair, optional_pair,
};
use crate::context::Robustness;
use crate::legacy::{ConfigBuilder, GlApi, GlVersion};

verus! {

/// The names the laws below speak of.
spec fn legacy_name(k: i32) -> bool {
    k == egl::CONTEXT_MAJOR_VERSION || k == egl::CONTEXT_MINOR_VERSION || k
        == egl::CONTEXT_OPENGL_RESET_NOTIFICATION_STRATEGY || k == egl::CONTEXT_OPENGL_NO_ERROR_KHR
        || k == egl::CONTEXT_OPENGL_DEBUG || k == egl::CONTEXT_FLAGS_KHR
}

/// The value of a name above in a legacy list made with context attributes.
spec fn legacy_value(
    one_five: bool,
    robust: bool,
    no_error: bool,
    version: GlVersion,
    robustness: Robustness,
    debug: bool,
    k: i32,
) -> Option<i32> {
    let robust_request = robust && (robustness is RobustNoResetNotification
        || robustness is TryRobustNoResetNotification || robustness is RobustLoseContextOnReset
        || robustness is TryRobustLoseContextOnReset);
    if k == egl::CONTEXT_MAJOR_VERSION {
        Some(version.0 as i32)
    } else if k == egl::CONTEXT_MINOR_VERSION {
        Some(version.1 as i32)
    } else if k == egl::CONTEXT_OPENGL_RESET_NOTIFICATION_STRATEGY {
        if robust_request {
            Some(
                if robustness is RobustNoResetNotification || robustness is TryRobustNoResetNotification {
                    egl::NO_RESET_NOTIFICATION
                } else {
                    egl::LOSE_CONTEXT_ON_RESET
                },
            )
        } else {
            None
        }
    } else if k == egl::CONTEXT_OPENGL_NO_ERROR_KHR {
        if robustness is NoError && no_error {
            Some(1i32)
        } else {
            None
        }
    } else if k == egl::CONTEXT_OPENGL_DEBUG {
        if debug && one_five {
            Some(egl::TRUE)
        } else {
            None
        }
    } else if robust_request {
        Some(egl::CONTEXT_OPENGL_ROBUST_ACCESS)
    } else {
        None
    }
}

proof fn lemma_legacy_value(
    v: (i32, i32),
    exts: Set<Seq<u8>>,
    api: GlApi,
    version: GlVersion,
    robustness: Robustness,
    debug: bool,
    k: i32,
)
    requires
        legacy_name(k),
        v.0 > 1 || (v.0 == 1 && v.1 >= 5) || exts.contains("EGL_KHR_create_context".spec_bytes()),
    ensures
        attribute_value(spec_legacy_context_attributes(v, exts, api, version, robustness, debug), k)
            == legacy_value(
            v.0 > 1 || (v.0 == 1 && v.1 >= 5),
            v.0 > 1 || (v.0 == 1 && v.1 >= 5) || exts.contains(
                "EGL_EXT_create_context_robustness".spec_bytes(),
            ),
            exts.contains("EGL_KHR_create_context_no_error".spec_bytes()),
            version,
            robustness,
            debug,
            k,
        ),
{
    let one_five = v.0 > 1 || (v.0 == 1 && v.1 >= 5);
    let robust = one_five || exts.contains("EGL_EXT_create_context_robustness".spec_bytes());
    let no_error = exts.contains("EGL_KHR_create_context_no_error".spec_bytes());
    let (rob, flag) = legacy_robustness_part(robustness, robust, no_error);
    let ma = pair(egl::CONTEXT_MAJOR_VERSION, version.0 as i32);
    let mi = pair(egl::CONTEXT_MINOR_VERSION, version.1 as i32);
    let db = optional_pair(debug && one_five, egl::CONTEXT_OPENGL_DEBUG, egl::TRUE);
    let fl = optional_pair(flag, egl::CONTEXT_FLAGS_KHR, egl::CONTEXT_OPENGL_ROBUST_ACCESS);
    let z = seq![egl::NONE];
    assert(spec_legacy_context_attributes(v, exts, api, version, robustness, debug) =~= ma + mi + rob
        + db + fl + z);
    lemma_attribute_value_pair(egl::CONTEXT_MAJOR_VERSION, version.0 as i32, k);
    lemma_attribute_value_pair(egl::CONTEXT_MINOR_VERSION, version.1 as i32, k);
    match robustness {
        Robustness::NoError => {
            lemma_optional_pair(no_error, egl::CONTEXT_OPENGL_NO_ERROR_KHR, 1i32, k);
        },
        Robustness::RobustNoResetNotification | Robustness::TryRobustNoResetNotification => {
            lemma_optional_pair(
                robust,
                egl::CONTEXT_OPENGL_RESET_NOTIFICATION_STRATEGY,
                egl::NO_RESET_NOTIFICATION,
                k,
            );
        },
        Robustness::RobustLoseContextOnReset | Robustness::TryRobustLoseContextOnReset => {
            lemma_optional_pair(
                robust,
                egl::CONTEXT_OPENGL_RESET_NOTIFICATION_STRATEGY,
                egl::LOSE_CONTEXT_ON_RESET,
                k,
            );
        },
        Robustness::NotRobust => {
            lemma_attribute_value_short(Seq::<i32>::empty(), k);
        },
    }
    lemma_optional_pair(debug && one_five, egl::CONTEXT_OPENGL_DEBUG, egl::TRUE, k);
    lemma_optional_pair(flag, egl::CONTEXT_FLAGS_KHR, egl::CONTEXT_OPENGL_ROBUST_ACCESS, k);
    lemma_attribute_value_short(z, k);
    lemma_attribute_value_concat(ma, mi, k);
    lemma_attribute_value_concat(ma + mi, rob, k);
    lemma_attribute_value_concat(ma + mi + rob, db, k);
    lemma_attribute_value_concat(ma + mi + rob + db, fl, k);
    lemma_attribute_value_concat(ma + mi + rob + db + fl, z, k);
}

/// With EGL 1.5 or `EGL_KHR_create_context`, a legacy context asks for the version it is made
/// at; with robustness support (EGL 1.5 or `EGL_EXT_create_context_robustness`) a robust request
/// asks for its reset notification strategy and for robust access; a no-error request asks for
/// no error checking where `EGL_KHR_create_context_no_error` is there; debugging is asked for
/// only with EGL 1.5.
pub proof fn lemma_legacy_context_attributes(
    v: (i32, i32),
    exts: Set<Seq<u8>>,
    api: GlApi,
    version: GlVersion,
    robustness: Robustness,
    debug: bool,
)
    requires
        v.0 > 1 || (v.0 == 1 && v.1 >= 5) || exts.contains("EGL_KHR_create_context".spec_bytes()),
    ensures
        ({
            let l = spec_legacy_context_attributes(v, exts, api, version, robustness, debug);
            let one_five = v.0 > 1 || (v.0 == 1 && v.1 >= 5);
            let robust = (one_five || exts.contains("EGL_EXT_create_context_robustness".spec_bytes()))
                && (robustness is RobustNoResetNotification
                || robustness is TryRobustNoResetNotification || robustness is RobustLoseContextOnReset
                || robustness is TryRobustLoseContextOnReset);
            &&& attribute_value(l, egl::CONTEXT_MAJOR_VERSION) == Some(version.0 as i32)
            &&& attribute_value(l, egl::CONTEXT_MINOR_VERSION) == Some(version.1 as i32)
            &&& attribute_value(l, egl::CONTEXT_OPENGL_RESET_NOTIFICATION_STRATEGY) == (if robust {
                Some(
                    if robustness is RobustNoResetNotification
                        || robustness is TryRobustNoResetNotification {
                        egl::NO_RESET_NOTIFICATION
                    } else {
                        egl::LOSE_CONTEXT_ON_RESET
                    },
                )
            } else {
                None
            })
            &&& attribute_value(l, egl::CONTEXT_FLAGS_KHR) == (if robust {
                Some(egl::CONTEXT_OPENGL_ROBUST_ACCESS)
            } else {
                None
            })
            &&& attribute_value(l, egl::CONTEXT_OPENGL_NO_ERROR_KHR) == (if robustness is NoError
                && exts.contains("EGL_KHR_create_context_no_error".spec_bytes()) {
                Some(1i32)
            } else {
                None
            })
            &&& attribute_value(l, egl::CONTEXT_OPENGL_DEBUG) == (if debug && one_five {
                Some(egl::TRUE)
            } else {
                None
            })
        }),
{
    lemma_legacy_value(v, exts, api, version, robustness, debug, egl::CONTEXT_MAJOR_VERSION);
    lemma_legacy_value(v, exts, api, version, robustness, debug, egl::CONTEXT_MINOR_VERSION);
    lemma_legacy_value(
        v,
        exts,
        api,
        version,
        robustness,
        debug,
        egl::CONTEXT_OPENGL_RESET_NOTIFICATION_STRATEGY,
    );
    lemma_legacy_value(v, exts, api, version, robustness, debug, egl::CONTEXT_FLAGS_KHR);
    lemma_legacy_value(v, exts, api, version, robustness, debug, egl::CONTEXT_OPENGL_NO_ERROR_KHR);
    lemma_legacy_value(v, exts, api, version, robustness, debug, egl::CONTEXT_OPENGL_DEBUG);
}

/// Without context attributes, an OpenGL ES context on EGL 1.3 or later asks for its major
/// version as the client version, and any other asks for nothing.
pub proof fn lemma_legacy_client_version(
    v: (i32, i32),
    exts: Set<Seq<u8>>,
    api: GlApi,
    version: GlVersion,
    robustness: Robustness,
    debug: bool,
)
    requires
        !(v.0 > 1 || (v.0 == 1 && v.1 >= 5) || exts.contains("EGL_KHR_create_context".spec_bytes())),
    ensures
        attribute_value(
            spec_legacy_context_attributes(v, exts, api, version, robustness, debug),
            egl::CONTEXT_CLIENT_VERSION,
        ) == (if (v.0 > 1 || (v.0 == 1 && v.1 >= 3)) && api == GlApi::OpenGlEs {
            Some(version.0 as i32)
        } else {
            None
        }),
        spec_legacy_context_attributes(v, exts, api, version, robustness, debug).last() == egl::NONE,
{
    let k = egl::CONTEXT_CLIENT_VERSION;
    let z = seq![egl::NONE];
    lemma_attribute_value_short(z, k);
    if (v.0 > 1 || (v.0 == 1 && v.1 >= 3)) && api == GlApi::OpenGlEs {
        let cv = pair(egl::CONTEXT_CLIENT_VERSION, version.0 as i32);
        lemma_attribute_value_pair(egl::CONTEXT_CLIENT_VERSION, version.0 as i32, k);
        lemma_attribute_value_concat(cv, z, k);
    }
}

/// The names the descriptor laws speak of.
spec fn descriptor_name(k: i32) -> bool {
    k == egl::SURFACE_TYPE || k == egl::RENDERABLE_TYPE || k == egl::CONFORMANT || k
        == egl::CONFIG_CAVEAT || k == egl::RED_SIZE || k == egl::GREEN_SIZE || k == egl::BLUE_SIZE
        || k == egl::ALPHA_SIZE || k == egl::DEPTH_SIZE || k == egl::STENCIL_SIZE || k
        == egl::SAMPLES
}

/// The Api bit a legacy request asks for, where it asks for one.
spec fn api_bit(v: (i32, i32), api: GlApi, version: Option<GlVersion>) -> Option<i32> {
    match api {
        GlApi::OpenGlEs => if v.0 > 1 || (v.0 == 1 && v.1 >= 3) {
            Some(
                if version.unwrap().0 == 3 {
                    egl::OPENGL_ES3_BIT
                } else if version.unwrap().0 == 2 {
                    egl::OPENGL_ES2_BIT
                } else {
                    egl::OPENGL_ES_BIT
                },
            )
        } else {
            None
        },
        _ => Some(egl::OPENGL_BIT),
    }
}

/// The value of a name above in a legacy descriptor.
spec fn descriptor_value(
    v: (i32, i32),
    api: GlApi,
    version: Option<GlVersion>,
    cb: ConfigBuilder,
    k: i32,
) -> Option<i32> {
    if k == egl::SURFACE_TYPE {
        Some(
            (if cb.window_surface_support {
                egl::WINDOW_BIT
            } else {
                0
            }) | (if cb.pbuffer_support {
                egl::PBUFFER_BIT
            } else {
                0
            }),
        )
    } else if k == egl::RENDERABLE_TYPE || k == egl::CONFORMANT {
        api_bit(v, api, version)
    } else if k == egl::CONFIG_CAVEAT {
        match cb.hardware_accelerated {
            Some(true) => Some(egl::NONE),
            Some(false) => Some(egl::SLOW_CONFIG),
            None => None,
        }
    } else if k == egl::RED_SIZE {
        match cb.color_bits {
            Some(c) => Some((c / 3) as i32),
            None => None,
        }
    } else if k == egl::GREEN_SIZE {
        match cb.color_bits {
            Some(c) => Some((c / 3 + if c % 3 != 0 { 1int } else { 0int }) as i32),
            None => None,
        }
    } else if k == egl::BLUE_SIZE {
        match cb.color_bits {
            Some(c) => Some((c / 3 + if c % 3 == 2 { 1int } else { 0int }) as i32),
            None => None,
        }
    } else if k == egl::ALPHA_SIZE {
        match cb.alpha_bits {
            Some(a) => Some(a as i32),
            None => None,
        }
    } else if k == egl::DEPTH_SIZE {
        match cb.depth_bits {
            Some(d) => Some(d as i32),
            None => None,
        }
    } else if k == egl::STENCIL_SIZE {
        match cb.stencil_bits {
            Some(s) => Some(s as i32),
            None => None,
        }
    } else {
        match cb.multisampling {
            Some(m) => Some(m as i32),
            None => None,
        }
    }
}

proof fn lemma_descriptor_head_value(
    v: (i32, i32),
    api: GlApi,
    version: Option<GlVersion>,
    cb: ConfigBuilder,
    k: i32,
)
    requires
        descriptor_name(k),
        api_request_defined(api, version),
    ensures
        descriptor_head(v, api, version, cb).len() % 2 == 0,
        attribute_value(descriptor_head(v, api, version, cb), k) == (if k == egl::SURFACE_TYPE || k
            == egl::RENDERABLE_TYPE || k == egl::CONFORMANT {
            descriptor_value(v, api, version, cb, k)
        } else {
            None
        }),
{
    let one_two = v.0 > 1 || (v.0 == 1 && v.1 >= 2);
    let cbt = optional_pair(one_two, egl::COLOR_BUFFER_TYPE, egl::RGB_BUFFER);
    let bits = (if cb.window_surface_support {
        egl::WINDOW_BIT
    } else {
        0
    }) | (if cb.pbuffer_support {
        egl::PBUFFER_BIT
    } else {
        0
    });
    let st = pair(egl::SURFACE_TYPE, bits);
    let ap = api_part(v, api, version);
    assert(descriptor_head(v, api, version, cb) =~= cbt + st + ap);
    lemma_optional_pair(one_two, egl::COLOR_BUFFER_TYPE, egl::RGB_BUFFER, k);
    lemma_attribute_value_pair(egl::SURFACE_TYPE, bits, k);
    match api_bit(v, api, version) {
        Some(b) => {
            assert(ap == pair(egl::RENDERABLE_TYPE, b) + pair(egl::CONFORMANT, b));
            lemma_attribute_value_pair(egl::RENDERABLE_TYPE, b, k);
            lemma_attribute_value_pair(egl::CONFORMANT, b, k);
            lemma_attribute_value_concat(pair(egl::RENDERABLE_TYPE, b), pair(egl::CONFORMANT, b), k);
        },
        None => {
            assert(ap =~= Seq::<i32>::empty());
            lemma_attribute_value_short(ap, k);
        },
    }
    lemma_attribute_value_concat(cbt, st, k);
    lemma_attribute_value_concat(cbt + st, ap, k);
}

proof fn lemma_tail_color_value(cb: ConfigBuilder, k: i32)
    requires
        descriptor_name(k),
    ensures
        descriptor_tail_color(cb).len() % 2 == 0,
        attribute_value(descriptor_tail_color(cb), k) == (if k == egl::CONFIG_CAVEAT || k
            == egl::RED_SIZE || k == egl::GREEN_SIZE || k == egl::BLUE_SIZE {
            descriptor_value((0, 0), GlApi::OpenGl, None, cb, k)
        } else {
            None
        }),
{
    let cav = optional_pair(
        cb.hardware_accelerated is Some,
        egl::CONFIG_CAVEAT,
        if cb.hardware_accelerated == Some(true) {
            egl::NONE
        } else {
            egl::SLOW_CONFIG
        },
    );
    let c = cb.color_bits->0;
    let on = cb.color_bits is Some;
    let r = optional_pair(on, egl::RED_SIZE, (c / 3) as i32);
    let g = optional_pair(on, egl::GREEN_SIZE, (c / 3 + if c % 3 != 0 { 1int } else { 0int }) as i32);
    let b = optional_pair(on, egl::BLUE_SIZE, (c / 3 + if c % 3 == 2 { 1int } else { 0int }) as i32);
    if on {
        assert(color_part(c) =~= r + g + b);
    }
    assert(descriptor_tail_color(cb) =~= cav + r + g + b);
    lemma_optional_pair(
        cb.hardware_accelerated is Some,
        egl::CONFIG_CAVEAT,
        if cb.hardware_accelerated == Some(true) {
            egl::NONE
        } else {
            egl::SLOW_CONFIG
        },
        k,
    );
    lemma_optional_pair(on, egl::RED_SIZE, (c / 3) as i32, k);
    lemma_optional_pair(on, egl::GREEN_SIZE, (c / 3 + if c % 3 != 0 { 1int } else { 0int }) as i32, k);
    lemma_optional_pair(on, egl::BLUE_SIZE, (c / 3 + if c % 3 == 2 { 1int } else { 0int }) as i32, k);
    lemma_attribute_value_concat(cav, r, k);
    lemma_attribute_value_concat(cav + r, g, k);
    lemma_attribute_value_concat(cav + r + g, b, k);
}

proof fn lemma_tail_sizes_value(cb: ConfigBuilder, k: i32)
    requires
        descriptor_name(k),
    ensures
        descriptor_tail_sizes(cb).len() % 2 == 0,
        attribute_value(descriptor_tail_sizes(cb), k) == (if k == egl::ALPHA_SIZE || k
            == egl::DEPTH_SIZE || k == egl::STENCIL_SIZE {
            descriptor_value((0, 0), GlApi::OpenGl, None, cb, k)
        } else {
            None
        }),
{
    let a = optional_pair(cb.alpha_bits is Some, egl::ALPHA_SIZE, cb.alpha_bits->0 as i32);
    let d = optional_pair(cb.depth_bits is Some, egl::DEPTH_SIZE, cb.depth_bits->0 as i32);
    let s = optional_pair(cb.stencil_bits is Some, egl::STENCIL_SIZE, cb.stencil_bits->0 as i32);
    assert(descriptor_tail_sizes(cb) =~= a + d + s);
    lemma_optional_pair(cb.alpha_bits is Some, egl::ALPHA_SIZE, cb.alpha_bits->0 as i32, k);
    lemma_optional_pair(cb.depth_bits is Some, egl::DEPTH_SIZE, cb.depth_bits->0 as i32, k);
    lemma_optional_pair(cb.stencil_bits is Some, egl::STENCIL_SIZE, cb.stencil_bits->0 as i32, k);
    lemma_attribute_value_concat(a, d, k);
    lemma_attribute_value_concat(a + d, s, k);
}

proof fn lemma_tail_samples_value(cb: ConfigBuilder, k: i32)
    requires
        descriptor_name(k),
    ensures
        descriptor_tail_samples(cb).len() % 2 == 0,
        attribute_value(descriptor_tail_samples(cb), k) == (if k == egl::SAMPLES {
            descriptor_value((0, 0), GlApi::OpenGl, None, cb, k)
        } else {
            None
        }),
{
    let m = optional_pair(cb.multisampling is Some, egl::SAMPLES, cb.multisampling->0 as i32);
    let x = optional_pair(
        cb.x11_visual_xid is Some,
        egl::NATIVE_VISUAL_ID,
        cb.x11_visual_xid->0 as i32,
    );
    assert(descriptor_tail_samples(cb) =~= m + x);
    lemma_optional_pair(cb.multisampling is Some, egl::SAMPLES, cb.multisampling->0 as i32, k);
    lemma_optional_pair(cb.x11_visual_xid is Some, egl::NATIVE_VISUAL_ID, cb.x11_visual_xid->0 as i32, k);
    lemma_attribute_value_concat(m, x, k);
}

proof fn lemma_descriptor_tail_value(cb: ConfigBuilder, k: i32)
    requires
        descriptor_name(k),
    ensures
        descriptor_tail(cb).len() % 2 == 0,
        attribute_value(descriptor_tail(cb), k) == (if k == egl::SURFACE_TYPE || k
            == egl::RENDERABLE_TYPE || k == egl::CONFORMANT {
            None
        } else {
            descriptor_value((0, 0), GlApi::OpenGl, None, cb, k)
        }),
{
    let c = descriptor_tail_color(cb);
    let z = descriptor_tail_sizes(cb);
    let m = descriptor_tail_samples(cb);
    lemma_tail_color_value(cb, k);
    lemma_tail_sizes_value(cb, k);
    lemma_tail_samples_value(cb, k);
    assert(descriptor_tail(cb) == c + z + m);
    lemma_attribute_value_concat(c, z, k);
    lemma_attribute_value_concat(c + z, m, k);
}

proof fn lemma_descriptor_value(
    v: (i32, i32),
    api: GlApi,
    version: Option<GlVersion>,
    cb: ConfigBuilder,
    k: i32,
)
    requires
        descriptor_name(k),
        api_request_defined(api, version),
    ensures
        attribute_value(
            descriptor_head(v, api, version, cb) + descriptor_tail(cb) + seq![egl::NONE],
            k,
        ) == descriptor_value(v, api, version, cb, k),
{
    let h = descriptor_head(v, api, version, cb);
    let t = descriptor_tail(cb);
    let z = seq![egl::NONE];
    lemma_descriptor_head_value(v, api, version, cb, k);
    lemma_descriptor_tail_value(cb, k);
    lemma_attribute_value_short(z, k);
    lemma_attribute_value_concat(h, t, k);
    lemma_attribute_value_concat(h + t, z, k);
}

/// The descriptor `eglChooseConfig` gets for a legacy request asks for window and pbuffer
/// surfaces as requested, for the Api bit of the request (OpenGL, or OpenGL ES 1, 2 or 3 by its
/// major version, the ES bit left out below EGL 1.3) both as renderable and conformant, and for
/// no caveat when hardware acceleration is wanted and a slow config when it is not.
pub proof fn lemma_legacy_descriptor_surfaces_apis(
    v: (i32, i32),
    api: GlApi,
    version: Option<GlVersion>,
    cb: ConfigBuilder,
)
    requires
        api_request_defined(api, version),
    ensures
        ({
            let l = descriptor_head(v, api, version, cb) + descriptor_tail(cb) + seq![egl::NONE];
            &&& attribute_value(l, egl::SURFACE_TYPE) matches Some(bits) && (bits & egl::WINDOW_BIT
                != 0 <==> cb.window_surface_support) && (bits & egl::PBUFFER_BIT != 0
                <==> cb.pbuffer_support)
            &&& attribute_value(l, egl::RENDERABLE_TYPE) == attribute_value(l, egl::CONFORMANT)
            &&& attribute_value(l, egl::RENDERABLE_TYPE) == (match api {
                GlApi::OpenGlEs => if v.0 > 1 || (v.0 == 1 && v.1 >= 3) {
                    Some(
                        match version.unwrap().0 {
                            3 => egl::OPENGL_ES3_BIT,
                            2 => egl::OPENGL_ES2_BIT,
                            _ => egl::OPENGL_ES_BIT,
                        },
                    )
                } else {
                    None
                },
                _ => Some(egl::OPENGL_BIT),
            })
            &&& attribute_value(l, egl::CONFIG_CAVEAT) == (match cb.hardware_accelerated {
                Some(true) => Some(egl::NONE),
                Some(false) => Some(egl::SLOW_CONFIG),
                None => None::<i32>,
            })
        }),
{
    lemma_descriptor_value(v, api, version, cb, egl::SURFACE_TYPE);
    lemma_descriptor_value(v, api, version, cb, egl::RENDERABLE_TYPE);
    lemma_descriptor_value(v, api, version, cb, egl::CONFORMANT);
    lemma_descriptor_value(v, api, version, cb, egl::CONFIG_CAVEAT);
    let w: i32 = if cb.window_surface_support { 4 } else { 0 };
    let p: i32 = if cb.pbuffer_support { 1 } else { 0 };
    assert(((w | p) & 4 != 0 <==> w == 4) && ((w | p) & 1 != 0 <==> p == 1)) by (bit_vector)
        requires
            w == 0 || w == 4,
            p == 0 || p == 1,
    ;
}

/// A legacy descriptor asks for the requested color bits split over red, green and blue so
/// that together they make the requested bits, no two apart by more than one (red getting the
/// least); and for the requested alpha, depth, stencil and samples, each left out when not
/// requested.
pub proof fn lemma_legacy_descriptor_sizes(
    v: (i32, i32),
    api: GlApi,
    version: Option<GlVersion>,
    cb: ConfigBuilder,
)
    requires
        api_request_defined(api, version),
    ensures
        ({
            let l = descriptor_head(v, api, version, cb) + descriptor_tail(cb) + seq![egl::NONE];
            &&& match cb.color_bits {
                Some(c) => {
                    &&& attribute_value(l, egl::RED_SIZE) matches Some(r)
                    &&& attribute_value(l, egl::GREEN_SIZE) matches Some(g)
                    &&& attribute_value(l, egl::BLUE_SIZE) matches Some(b)
                    &&& r + g + b == c
                    &&& r <= b <= g <= r + 1
                },
                None => {
                    &&& attribute_value(l, egl::RED_SIZE) is None
                    &&& attribute_value(l, egl::GREEN_SIZE) is None
                    &&& attribute_value(l, egl::BLUE_SIZE) is None
                },
            }
            &&& attribute_value(l, egl::ALPHA_SIZE) == (match cb.alpha_bits {
                Some(a) => Some(a as i32),
                None => None::<i32>,
            })
            &&& attribute_value(l, egl::DEPTH_SIZE) == (match cb.depth_bits {
                Some(d) => Some(d as i32),
                None => None::<i32>,
            })
            &&& attribute_value(l, egl::STENCIL_SIZE) == (match cb.stencil_bits {
                Some(s) => Some(s as i32),
                None => None::<i32>,
            })
            &&& attribute_value(l, egl::SAMPLES) == (match cb.multisampling {
                Some(m) => Some(m as i32),
                None => None::<i32>,
            })
        }),
{
    lemma_descriptor_value(v, api, version, cb, egl::RED_SIZE);
    lemma_descriptor_value(v, api, version, cb, egl::GREEN_SIZE);
    lemma_descriptor_value(v, api, version, cb, egl::BLUE_SIZE);
    lemma_descriptor_value(v, api, version, cb, egl::ALPHA_SIZE);
    lemma_descriptor_value(v, api, version, cb, egl::DEPTH_SIZE);
    lemma_descriptor_value(v, api, version, cb, egl::STENCIL_SIZE);
    lemma_descriptor_value(v, api, version, cb, egl::SAMPLES);
}

} // verus!
