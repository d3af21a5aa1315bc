//! Creating an `EGLContext`: which client Api to bind and the attribute list for
//! `eglCreateContext`.
use vstd::prelude::*;

use super::config::pair;
use super::consts as egl;
use crate::config::{Api, DisplayFeatures};
use crate::context::{ContextApi, ContextAttributes, GlProfile, RawContext, Robustness, Version};
use crate::error::{Error, ErrorKind};
use crate::extensions::ExtensionSet;

verus! {

/// The client Api to bind and the version to ask for, or `None` when the requested Api can't be
/// served: OpenGL needs EGL above 1.3 and an OpenGL capable config; everything else gets OpenGL
/// ES, at the requested version or the highest the config supports.
pub open spec fn spec_context_api(
    requested: Option<ContextApi>,
    egl_version: Version,
    config_api: Api,
) -> Option<(u32, Option<Version>)> {
    let supports_opengl = egl_version.major > 1 || (egl_version.major == 1 && egl_version.minor > 3);
    match requested {
        Some(ContextApi::OpenGl(v)) => if supports_opengl && config_api.spec_contains(Api { bits: 1 }) {
            Some((egl::OPENGL_API, v))
        } else {
            None
        },
        None => if supports_opengl && config_api.spec_contains(Api { bits: 1 }) {
            Some((egl::OPENGL_API, None))
        } else {
            Some((egl::OPENGL_ES_API, Some(default_gles_version(config_api))))
        },
        Some(ContextApi::Gles(v)) => Some(
            (
                egl::OPENGL_ES_API,
                Some(
                    match v {
                        Some(v) => v,
                        None => default_gles_version(config_api),
                    },
                ),
            ),
        ),
    }
}

/// The OpenGL ES version used when none was requested: the highest the config renders.
pub open spec fn default_gles_version(config_api: Api) -> Version {
    if config_api.spec_contains(Api { bits: 8 }) {
        Version { major: 3, minor: 0 }
    } else if config_api.spec_contains(Api { bits: 4 }) {
        Version { major: 2, minor: 0 }
    } else {
        Version { major: 1, minor: 0 }
    }
}

/// Choose the client Api and version of a new context.
pub fn context_api(requested: Option<ContextApi>, egl_version: Version, config_api: Api) -> (r:
    Result<(u32, Option<Version>), Error>)
    ensures
        r is Err <==> spec_context_api(requested, egl_version, config_api) is None,
        r matches Err(e) ==> e.kind == ErrorKind::NotSupported(
            "the requested context Api isn't supported.",
        ),
        r matches Ok(p) ==> spec_context_api(requested, egl_version, config_api) == Some(p),
{
    let supports_opengl = egl_version.greater_than(1, 3);
    let opengl_ok = supports_opengl && config_api.contains(Api::opengl());
    let gles_default = if config_api.contains(Api::gles3()) {
        Version::new(3, 0)
    } else if config_api.contains(Api::gles2()) {
        Version::new(2, 0)
    } else {
        Version::new(1, 0)
    };
    match requested {
        Some(ContextApi::OpenGl(v)) => {
            if opengl_ok {
                Ok((egl::OPENGL_API, v))
            } else {
                Err(
                    Error::from_kind(
                        ErrorKind::NotSupported("the requested context Api isn't supported."),
                    ),
                )
            }
        },
        None => {
            if opengl_ok {
                Ok((egl::OPENGL_API, None))
            } else {
                Ok((egl::OPENGL_ES_API, Some(gles_default)))
            }
        },
        Some(ContextApi::Gles(v)) => {
            let version = match v {
                Some(v) => v,
                None => gles_default,
            };
            Ok((egl::OPENGL_ES_API, Some(version)))
        },
    }
}

/// The `EGL_CONTEXT_OPENGL_PROFILE_MASK` bit of a profile.
pub open spec fn profile_bit(p: GlProfile) -> i32 {
    match p {
        GlProfile::Core => egl::CONTEXT_OPENGL_CORE_PROFILE_BIT,
        GlProfile::Compatibility => egl::CONTEXT_OPENGL_COMPATIBILITY_PROFILE_BIT,
    }
}

/// Whether the display can serve a robustness request: `NotRobust` always, `NoError` with the
/// no-error feature, the two robust variants with the robustness feature, the `Try` variants
/// never.
pub open spec fn robustness_supported(r: Robustness, features: DisplayFeatures) -> bool {
    match r {
        Robustness::NotRobust => true,
        Robustness::NoError => features.context_no_error,
        Robustness::RobustLoseContextOnReset => features.context_robustness,
        Robustness::RobustNoResetNotification => features.context_robustness,
        _ => false,
    }
}

/// The robustness attributes.
pub open spec fn robustness_part(r: Robustness) -> Seq<i32> {
    match r {
        Robustness::NoError => pair(egl::CONTEXT_OPENGL_NO_ERROR_KHR, egl::TRUE),
        Robustness::RobustLoseContextOnReset => pair(
            egl::CONTEXT_OPENGL_RESET_NOTIFICATION_STRATEGY,
            egl::LOSE_CONTEXT_ON_RESET,
        ),
        Robustness::RobustNoResetNotification => pair(
            egl::CONTEXT_OPENGL_RESET_NOTIFICATION_STRATEGY,
            egl::NO_RESET_NOTIFICATION,
        ),
        _ => Seq::empty(),
    }
}

/// Whether a robustness request sets the robust access flag.
pub open spec fn robust_access(r: Robustness) -> bool {
    r is RobustLoseContextOnReset || r is RobustNoResetNotification
}

/// The version attributes.
pub open spec fn version_part(v: Option<Version>) -> Seq<i32> {
    match v {
        Some(v) => pair(egl::CONTEXT_MAJOR_VERSION, v.major as i32) + pair(
            egl::CONTEXT_MINOR_VERSION,
            v.minor as i32,
        ),
        None => Seq::empty(),
    }
}

/// The attribute list for `eglCreateContext` when the display has EGL 1.5 or
/// `EGL_KHR_create_context`, for a supported robustness request. `opengl_profile` is the profile
/// and version picked for an OpenGL context; it replaces the version for the OpenGL Api.
pub open spec fn khr_attribute_list(
    api: u32,
    version: Option<Version>,
    opengl_profile: (GlProfile, Version),
    robustness: Robustness,
    debug: bool,
    is_one_five: bool,
) -> Seq<i32> {
    let is_opengl = api == egl::OPENGL_API;
    (if is_opengl {
        pair(egl::CONTEXT_OPENGL_PROFILE_MASK, profile_bit(opengl_profile.0))
    } else {
        Seq::empty()
    }) + version_part(if is_opengl { Some(opengl_profile.1) } else { version }) + robustness_part(
        robustness,
    ) + (if debug && is_one_five && !(robustness is NoError) {
        pair(egl::CONTEXT_OPENGL_DEBUG, egl::TRUE)
    } else {
        Seq::empty()
    }) + (if robust_access(robustness) {
        pair(egl::CONTEXT_FLAGS_KHR, egl::CONTEXT_OPENGL_ROBUST_ACCESS_BIT_KHR)
    } else {
        Seq::empty()
    }) + seq![egl::NONE]
}

/// The attribute list for `eglCreateContext`, or `None` when the robustness request can't be
/// served.
pub open spec fn spec_context_attribute_list(
    api: u32,
    version: Option<Version>,
    opengl_profile: (GlProfile, Version),
    attributes: ContextAttributes,
    egl_version: Version,
    has_khr_create_context: bool,
    features: DisplayFeatures,
) -> Option<Seq<i32>> {
    let is_one_five = egl_version.spec_at_least(Version { major: 1, minor: 5 });
    if is_one_five || has_khr_create_context {
        if robustness_supported(attributes.robustness, features) {
            Some(
                khr_attribute_list(
                    api,
                    version,
                    opengl_profile,
                    attributes.robustness,
                    attributes.debug,
                    is_one_five,
                ),
            )
        } else {
            None
        }
    } else if egl_version.spec_at_least(Version { major: 1, minor: 3 }) {
        Some(
            match version {
                Some(v) => pair(egl::CONTEXT_CLIENT_VERSION, v.major as i32),
                None => Seq::empty(),
            } + seq![egl::NONE],
        )
    } else {
        Some(seq![egl::NONE])
    }
}

proof fn lemma_even_concat(a: Seq<i32>, b: Seq<i32>)
    requires
        a.len() % 2 == 0,
        b.len() % 2 == 0,
    ensures
        (a + b).len() % 2 == 0,
{
    assert((a + b).len() == a.len() + b.len());
}

/// The attribute list of `eglCreateContext` with EGL 1.5 or `EGL_KHR_create_context` is made of
/// name and value pairs and ends with `EGL_NONE`.
pub proof fn lemma_khr_attribute_list_terminated(
    api: u32,
    version: Option<Version>,
    opengl_profile: (GlProfile, Version),
    robustness: Robustness,
    debug: bool,
    is_one_five: bool,
)
    ensures
        khr_attribute_list(api, version, opengl_profile, robustness, debug, is_one_five).last()
            == egl::NONE,
        khr_attribute_list(api, version, opengl_profile, robustness, debug, is_one_five).len() % 2
            == 1,
{
    let is_opengl = api == egl::OPENGL_API;
    let p = if is_opengl {
        pair(egl::CONTEXT_OPENGL_PROFILE_MASK, profile_bit(opengl_profile.0))
    } else {
        Seq::empty()
    };
    let v = version_part(if is_opengl { Some(opengl_profile.1) } else { version });
    let r = robustness_part(robustness);
    let d = if debug && is_one_five && !(robustness is NoError) {
        pair(egl::CONTEXT_OPENGL_DEBUG, egl::TRUE)
    } else {
        Seq::empty()
    };
    let fl = if robust_access(robustness) {
        pair(egl::CONTEXT_FLAGS_KHR, egl::CONTEXT_OPENGL_ROBUST_ACCESS_BIT_KHR)
    } else {
        Seq::empty()
    };
    assert(p.len() % 2 == 0);
    assert(v.len() % 2 == 0);
    assert(r.len() % 2 == 0);
    assert(d.len() % 2 == 0);
    assert(fl.len() % 2 == 0);
    lemma_even_concat(p, v);
    lemma_even_concat(p + v, r);
    lemma_even_concat(p + v + r, d);
    lemma_even_concat(p + v + r + d, fl);
}

fn push_pair(attrs: &mut Vec<i32>, name: i32, value: i32)
    ensures
        final(attrs)@ == old(attrs)@ + pair(name, value),
{
    super::config::push_pair(attrs, name, value)
}

fn khr_attributes(
    api: u32,
    version: Option<Version>,
    opengl_profile: (GlProfile, Version),
    robustness: Robustness,
    debug: bool,
    is_one_five: bool,
) -> (r: Vec<i32>)
    ensures
        r@ == khr_attribute_list(api, version, opengl_profile, robustness, debug, is_one_five),
{
    let mut attrs: Vec<i32> = Vec::new();
    let mut version = version;
    if api == egl::OPENGL_API {
        let bit = match opengl_profile.0 {
            GlProfile::Core => egl::CONTEXT_OPENGL_CORE_PROFILE_BIT,
            GlProfile::Compatibility => egl::CONTEXT_OPENGL_COMPATIBILITY_PROFILE_BIT,
        };
        push_pair(&mut attrs, egl::CONTEXT_OPENGL_PROFILE_MASK, bit);
        version = Some(opengl_profile.1);
    }
    let ghost s1 = attrs@;
    if let Some(v) = version {
        push_pair(&mut attrs, egl::CONTEXT_MAJOR_VERSION, v.major as i32);
        push_pair(&mut attrs, egl::CONTEXT_MINOR_VERSION, v.minor as i32);
    }
    let ghost s2 = attrs@;
    let mut flags: i32 = 0;
    let mut requested_no_error = false;
    match robustness {
        Robustness::NoError => {
            push_pair(&mut attrs, egl::CONTEXT_OPENGL_NO_ERROR_KHR, egl::TRUE);
            requested_no_error = true;
        },
        Robustness::RobustLoseContextOnReset => {
            push_pair(
                &mut attrs,
                egl::CONTEXT_OPENGL_RESET_NOTIFICATION_STRATEGY,
                egl::LOSE_CONTEXT_ON_RESET,
            );
            flags = egl::CONTEXT_OPENGL_ROBUST_ACCESS_BIT_KHR;
        },
        Robustness::RobustNoResetNotification => {
            push_pair(
                &mut attrs,
                egl::CONTEXT_OPENGL_RESET_NOTIFICATION_STRATEGY,
                egl::NO_RESET_NOTIFICATION,
            );
            flags = egl::CONTEXT_OPENGL_ROBUST_ACCESS_BIT_KHR;
        },
        _ => {},
    }
    let ghost s3 = attrs@;
    if debug && is_one_five && !requested_no_error {
        push_pair(&mut attrs, egl::CONTEXT_OPENGL_DEBUG, egl::TRUE);
    }
    let ghost s4 = attrs@;
    if flags != 0 {
        push_pair(&mut attrs, egl::CONTEXT_FLAGS_KHR, flags);
    }
    let ghost s5 = attrs@;
    attrs.push(egl::NONE);
    proof {
        let is_opengl = api == egl::OPENGL_API;
        assert(s2 =~= (if is_opengl {
            pair(egl::CONTEXT_OPENGL_PROFILE_MASK, profile_bit(opengl_profile.0))
        } else {
            Seq::empty()
        }) + version_part(if is_opengl { Some(opengl_profile.1) } else { version@ }));
        assert(s3 =~= s2 + robustness_part(robustness));
        assert(attrs@ =~= khr_attribute_list(
            api,
            version@,
            opengl_profile,
            robustness,
            debug,
            is_one_five,
        ));
    }
    attrs
}

/// The attribute list for `eglCreateContext`.
///
/// With EGL 1.5 or `EGL_KHR_create_context` the list holds the profile (for OpenGL), the
/// version, the robustness strategy, the debug flag and the context flags; a robustness request
/// the display can't serve is refused. With EGL 1.3 or 1.4 it holds only the client version.
pub fn context_attribute_list(
    api: u32,
    version: Option<Version>,
    opengl_profile: (GlProfile, Version),
    attributes: &ContextAttributes,
    egl_version: Version,
    display_extensions: &ExtensionSet,
    features: &DisplayFeatures,
) -> (r: Result<Vec<i32>, Error>)
    ensures
        r is Err <==> spec_context_attribute_list(
            api,
            version,
            opengl_profile,
            *attributes,
            egl_version,
            display_extensions.spec_has("EGL_KHR_create_context"),
            *features,
        ) is None,
        r matches Err(e) ==> e.kind == ErrorKind::NotSupported("context robustness is not supported"),
        r matches Ok(v) ==> spec_context_attribute_list(
            api,
            version,
            opengl_profile,
            *attributes,
            egl_version,
            display_extensions.spec_has("EGL_KHR_create_context"),
            *features,
        ) == Some(v@),
{
    let is_one_five = egl_version.at_least(1, 5);
    let has_khr = display_extensions.contains("EGL_KHR_create_context");
    if is_one_five || has_khr {
        let supported = match attributes.robustness {
            Robustness::NotRobust => true,
            Robustness::NoError => features.context_no_error,
            Robustness::RobustLoseContextOnReset => features.context_robustness,
            Robustness::RobustNoResetNotification => features.context_robustness,
            _ => false,
        };
        if !supported {
            return Err(
                Error::from_kind(ErrorKind::NotSupported("context robustness is not supported")),
            );
        }
        Ok(
            khr_attributes(
                api,
                version,
                opengl_profile,
                attributes.robustness,
                attributes.debug,
                is_one_five,
            ),
        )
    } else if egl_version.at_least(1, 3) {
        let mut attrs: Vec<i32> = Vec::new();
        if let Some(v) = version {
            push_pair(&mut attrs, egl::CONTEXT_CLIENT_VERSION, v.major as i32);
        }
        attrs.push(egl::NONE);
        proof {
            assert(attrs@ =~= match version {
                Some(v) => pair(egl::CONTEXT_CLIENT_VERSION, v.major as i32),
                None => Seq::empty(),
            } + seq![egl::NONE]);
        }
        Ok(attrs)
    } else {
        let mut attrs: Vec<i32> = Vec::new();
        attrs.push(egl::NONE);
        assert(attrs@ =~= seq![egl::NONE]);
        Ok(attrs)
    }
}

/// The `EGLContext` to share objects with: the EGL one passed, or `EGL_NO_CONTEXT` (zero) when
/// none was; a context of another Api is refused.
pub fn shared_context(shared: Option<RawContext>) -> (r: Result<usize, Error>)
    ensures
        r is Err <==> (shared is Some && !(shared->0 is Egl)),
        r matches Err(e) ==> e.kind == ErrorKind::NotSupported("passed incompatible raw context"),
        r matches Ok(h) ==> h == match shared {
            Some(RawContext::Egl(h)) => h,
            _ => 0,
        },
{
    match shared {
        Some(RawContext::Egl(h)) => Ok(h),
        Some(_) => Err(Error::from_kind(ErrorKind::NotSupported("passed incompatible raw context"))),
        None => Ok(0),
    }
}

/// The Api a context reports through `EGL_CONTEXT_CLIENT_TYPE`: OpenGL when it says
/// `EGL_OPENGL_API`, OpenGL ES for anything else, including a failed query.
pub fn context_api_from_client_type(client_type: Option<i32>) -> (r: ContextApi)
    ensures
        r == (if client_type == Some(egl::OPENGL_API as i32) {
            ContextApi::OpenGl(None)
        } else {
            ContextApi::Gles(None)
        }),
{
    match client_type {
        Some(t) if t == egl::OPENGL_API as i32 => ContextApi::OpenGl(None),
        _ => ContextApi::Gles(None),
    }
}

/// Whether the Api of a context is to be bound again before a call that needs it: when the
/// Api bound now (`eglQueryAPI`) is another one.
pub fn needs_bind(bound_api: u32, context_api: u32) -> (r: bool)
    ensures
        r == (bound_api != context_api),
{
    bound_api != context_api
}

} // verus!
