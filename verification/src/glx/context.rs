//! GLX contexts: the context to share with, which creation path is taken, the attribute list
//! of `glXCreateContextAttribsARB`, and what a created context reports.
use vstd::prelude::*;

use super::config::pair;
use super::consts as glx;
use crate::config::DisplayFeatures;
use crate::context::{ContextApi, ContextAttributes, GlProfile, RawContext, ReleaseBehavior, Robustness, Version};
use crate::error::{Error, ErrorKind};

verus! {

/// The context to share objects with: a GLX context, or none (zero).
pub fn shared_context(shared: Option<RawContext>) -> (r: Result<usize, Error>)
    ensures
        shared is None ==> r == Ok::<usize, Error>(0),
        shared matches Some(RawContext::Glx(c)) ==> r == Ok::<usize, Error>(c),
        shared matches Some(c) && !(c is Glx) ==> (r matches Err(e) && e.kind
            == ErrorKind::NotSupported("incompatible context was passed")),
{
    match shared {
        None => Ok(0),
        Some(RawContext::Glx(c)) => Ok(c),
        Some(_) => Err(Error::from_kind(ErrorKind::NotSupported("incompatible context was passed"))),
    }
}

/// Contexts are created with attributes where the display has `GLX_ARB_create_context` and the
/// extension functions could be loaded; else with `glXCreateNewContext`.
pub fn use_create_context_arb(has_create_context: bool, extra_loaded: bool) -> (r: bool)
    ensures
        r == (has_create_context && extra_loaded),
{
    has_create_context && extra_loaded
}

/// The `GLX_CONTEXT_PROFILE_MASK_ARB` bit of a profile.
pub open spec fn profile_bit(p: GlProfile) -> i32 {
    match p {
        GlProfile::Core => glx::CONTEXT_CORE_PROFILE_BIT_ARB,
        GlProfile::Compatibility => glx::CONTEXT_COMPATIBILITY_PROFILE_BIT_ARB,
    }
}

/// The profile bit and version of a context request; `None` for OpenGL ES where the display
/// cannot create ES contexts. `opengl_profile` is the profile and version picked for OpenGL.
pub open spec fn spec_profile_version(
    api: Option<ContextApi>,
    opengl_profile: (GlProfile, Version),
    supports_es: bool,
) -> Option<(i32, Version)> {
    match api {
        None | Some(ContextApi::OpenGl(_)) => Some((profile_bit(opengl_profile.0), opengl_profile.1)),
        Some(ContextApi::Gles(v)) => if supports_es {
            Some(
                (
                    glx::CONTEXT_ES2_PROFILE_BIT_EXT,
                    match v {
                        Some(v) => v,
                        None => Version { major: 2, minor: 0 },
                    },
                ),
            )
        } else {
            None
        },
    }
}

/// The robustness attributes and flags of a request on a display with robustness support;
/// the `Try` variants ask for the robustness they name.
pub open spec fn robustness_part(r: Robustness) -> Seq<i32> {
    match r {
        Robustness::RobustNoResetNotification | Robustness::TryRobustNoResetNotification => pair(
            glx::CONTEXT_RESET_NOTIFICATION_STRATEGY_ARB,
            glx::NO_RESET_NOTIFICATION_ARB,
        ),
        Robustness::RobustLoseContextOnReset | Robustness::TryRobustLoseContextOnReset => pair(
            glx::CONTEXT_RESET_NOTIFICATION_STRATEGY_ARB,
            glx::LOSE_CONTEXT_ON_RESET_ARB,
        ),
        Robustness::NoError => seq![glx::CONTEXT_OPENGL_NO_ERROR_ARB],
        Robustness::NotRobust => seq![],
    }
}

/// Whether a request sets the robust access flag, on a display with robustness support.
pub open spec fn robust_access(r: Robustness) -> bool {
    r is RobustNoResetNotification || r is TryRobustNoResetNotification
        || r is RobustLoseContextOnReset || r is TryRobustLoseContextOnReset
}

/// The error a robustness request meets, if any: without robustness support only the `Try`
/// variants fall back to no robustness; with it, no-error contexts need their own extension.
pub open spec fn robustness_refusal(r: Robustness, f: DisplayFeatures) -> Option<ErrorKind> {
    if f.context_robustness {
        if r is NoError && !f.context_no_error {
            Some(ErrorKind::NotSupported("GLX_ARB_create_context_no_error not supported"))
        } else {
            None
        }
    } else if r is NotRobust || r is TryRobustNoResetNotification || r is TryRobustLoseContextOnReset {
        None
    } else {
        Some(ErrorKind::NotSupported("GLX_ARB_create_context_robustness is not supported"))
    }
}

/// The flags of a request.
pub open spec fn context_flags(a: ContextAttributes, f: DisplayFeatures) -> i32 {
    (if f.context_robustness && robust_access(a.robustness) {
        glx::CONTEXT_ROBUST_ACCESS_BIT_ARB
    } else {
        0i32
    }) | (if a.debug {
        glx::CONTEXT_DEBUG_BIT_ARB
    } else {
        0i32
    })
}

/// The zero terminated attribute list `glXCreateContextAttribsARB` gets: the profile and
/// version, the requested profile once more, robustness, flags and release behavior.
pub open spec fn spec_arb_attributes(
    profile: i32,
    version: Version,
    a: ContextAttributes,
    f: DisplayFeatures,
) -> Seq<i32> {
    pair(glx::CONTEXT_PROFILE_MASK_ARB, profile) + pair(
        glx::CONTEXT_MAJOR_VERSION_ARB,
        version.major as i32,
    ) + pair(glx::CONTEXT_MINOR_VERSION_ARB, version.minor as i32) + (match a.profile {
        Some(p) => pair(glx::CONTEXT_PROFILE_MASK_ARB, profile_bit(p)),
        None => seq![],
    }) + (if f.context_robustness {
        robustness_part(a.robustness)
    } else {
        seq![]
    }) + (if context_flags(a, f) != 0 {
        pair(glx::CONTEXT_FLAGS_ARB, context_flags(a, f))
    } else {
        seq![]
    }) + (if f.context_release_behavior && a.release_behavior is NoFlush {
        pair(glx::CONTEXT_RELEASE_BEHAVIOR_ARB, glx::CONTEXT_RELEASE_BEHAVIOR_NONE_ARB)
    } else {
        seq![]
    }) + seq![0i32]
}

/// The attribute list of `glXCreateContextAttribsARB` starts with the profile and version and
/// ends with zero.
pub proof fn lemma_arb_attributes_terminated(profile: i32, version: Version, a: ContextAttributes, f: DisplayFeatures)
    ensures
        spec_arb_attributes(profile, version, a, f).last() == 0,
        spec_arb_attributes(profile, version, a, f).subrange(0, 6) == seq![
            glx::CONTEXT_PROFILE_MASK_ARB,
            profile,
            glx::CONTEXT_MAJOR_VERSION_ARB,
            version.major as i32,
            glx::CONTEXT_MINOR_VERSION_ARB,
            version.minor as i32,
        ],
{
    let s = spec_arb_attributes(profile, version, a, f);
    let head = pair(glx::CONTEXT_PROFILE_MASK_ARB, profile) + pair(
        glx::CONTEXT_MAJOR_VERSION_ARB,
        version.major as i32,
    ) + pair(glx::CONTEXT_MINOR_VERSION_ARB, version.minor as i32);
    assert(s.subrange(0, 6) =~= head);
}

fn push_pair(attrs: &mut Vec<i32>, name: i32, value: i32)
    ensures
        final(attrs)@ == old(attrs)@ + pair(name, value),
{
    attrs.push(name);
    attrs.push(value);
    assert(attrs@ =~= old(attrs)@ + pair(name, value));
}

fn push_robustness(attrs: &mut Vec<i32>, r: Robustness)
    ensures
        final(attrs)@ == old(attrs)@ + robustness_part(r),
{
    match r {
        Robustness::RobustNoResetNotification | Robustness::TryRobustNoResetNotification => {
            push_pair(
                attrs,
                glx::CONTEXT_RESET_NOTIFICATION_STRATEGY_ARB,
                glx::NO_RESET_NOTIFICATION_ARB,
            );
        },
        Robustness::RobustLoseContextOnReset | Robustness::TryRobustLoseContextOnReset => {
            push_pair(
                attrs,
                glx::CONTEXT_RESET_NOTIFICATION_STRATEGY_ARB,
                glx::LOSE_CONTEXT_ON_RESET_ARB,
            );
        },
        Robustness::NoError => {
            attrs.push(glx::CONTEXT_OPENGL_NO_ERROR_ARB);
        },
        Robustness::NotRobust => {},
    }
    assert(final(attrs)@ =~= old(attrs)@ + robustness_part(r));
}

/// The attribute list of `glXCreateContextAttribsARB` for a request.
///
/// OpenGL ES needs a display that can create ES contexts; robustness needs the robustness
/// extension (the `Try` variants fall back to none without it) and no-error contexts their own;
/// a release behavior other than flushing needs flush control. The first refusal in that order
/// is the error.
pub fn arb_context_attributes(
    opengl_profile: (GlProfile, Version),
    attributes: &ContextAttributes,
    features: &DisplayFeatures,
) -> (r: Result<Vec<i32>, Error>)
    ensures
        spec_profile_version(attributes.api, opengl_profile, features.create_es_context) is None
            ==> (r matches Err(e) && e.kind == ErrorKind::NotSupported(
            "extension to create ES context with glx is not present.",
        )),
        spec_profile_version(attributes.api, opengl_profile, features.create_es_context) is Some
            && robustness_refusal(attributes.robustness, *features) is Some ==> (r matches Err(e)
            && Some(e.kind) == robustness_refusal(attributes.robustness, *features)),
        spec_profile_version(attributes.api, opengl_profile, features.create_es_context) is Some
            && robustness_refusal(attributes.robustness, *features) is None
            && !features.context_release_behavior && attributes.release_behavior is NoFlush ==> (
        r matches Err(e) && e.kind == ErrorKind::NotSupported(
            "flush control behavior GLX_ARB_context_flush_control",
        )),
        r is Ok <==> spec_profile_version(attributes.api, opengl_profile, features.create_es_context)
            is Some && robustness_refusal(attributes.robustness, *features) is None && (
        features.context_release_behavior || attributes.release_behavior is Flush),
        r matches Ok(a) ==> {
            let pv = spec_profile_version(
                attributes.api,
                opengl_profile,
                features.create_es_context,
            )->0;
            a@ == spec_arb_attributes(pv.0, pv.1, *attributes, *features)
        },
{
    let (profile, version) = match attributes.api {
        None | Some(ContextApi::OpenGl(_)) => {
            let bit = match opengl_profile.0 {
                GlProfile::Core => glx::CONTEXT_CORE_PROFILE_BIT_ARB,
                GlProfile::Compatibility => glx::CONTEXT_COMPATIBILITY_PROFILE_BIT_ARB,
            };
            (bit, opengl_profile.1)
        },
        Some(ContextApi::Gles(v)) => {
            if !features.create_es_context {
                return Err(
                    Error::from_kind(
                        ErrorKind::NotSupported(
                            "extension to create ES context with glx is not present.",
                        ),
                    ),
                );
            }
            (
                glx::CONTEXT_ES2_PROFILE_BIT_EXT,
                match v {
                    Some(v) => v,
                    None => Version::new(2, 0),
                },
            )
        },
    };
    let mut attrs: Vec<i32> = Vec::new();
    push_pair(&mut attrs, glx::CONTEXT_PROFILE_MASK_ARB, profile);
    push_pair(&mut attrs, glx::CONTEXT_MAJOR_VERSION_ARB, version.major as i32);
    push_pair(&mut attrs, glx::CONTEXT_MINOR_VERSION_ARB, version.minor as i32);
    let ghost head = attrs@;
    match attributes.profile {
        Some(p) => {
            let bit = match p {
                GlProfile::Core => glx::CONTEXT_CORE_PROFILE_BIT_ARB,
                GlProfile::Compatibility => glx::CONTEXT_COMPATIBILITY_PROFILE_BIT_ARB,
            };
            push_pair(&mut attrs, glx::CONTEXT_PROFILE_MASK_ARB, bit);
        },
        None => {},
    }
    let ghost with_profile = attrs@;
    let mut robust_bit: i32 = 0;
    if features.context_robustness {
        match attributes.robustness {
            Robustness::NoError => {
                if !features.context_no_error {
                    return Err(
                        Error::from_kind(
                            ErrorKind::NotSupported("GLX_ARB_create_context_no_error not supported"),
                        ),
                    );
                }
            },
            Robustness::NotRobust => {},
            _ => {
                robust_bit = glx::CONTEXT_ROBUST_ACCESS_BIT_ARB;
            },
        }
        push_robustness(&mut attrs, attributes.robustness);
    } else {
        match attributes.robustness {
            Robustness::NotRobust | Robustness::TryRobustNoResetNotification
            | Robustness::TryRobustLoseContextOnReset => {},
            _ => {
                return Err(
                    Error::from_kind(
                        ErrorKind::NotSupported("GLX_ARB_create_context_robustness is not supported"),
                    ),
                );
            },
        }
    }
    let ghost with_robustness = attrs@;
    let debug_bit: i32 = if attributes.debug {
        glx::CONTEXT_DEBUG_BIT_ARB
    } else {
        0
    };
    let flags = robust_bit | debug_bit;
    assert(flags == context_flags(*attributes, *features));
    if flags != 0 {
        push_pair(&mut attrs, glx::CONTEXT_FLAGS_ARB, flags);
    }
    let ghost with_flags = attrs@;
    if features.context_release_behavior {
        match attributes.release_behavior {
            ReleaseBehavior::Flush => {},
            ReleaseBehavior::NoFlush => {
                push_pair(
                    &mut attrs,
                    glx::CONTEXT_RELEASE_BEHAVIOR_ARB,
                    glx::CONTEXT_RELEASE_BEHAVIOR_NONE_ARB,
                );
            },
        }
    } else {
        match attributes.release_behavior {
            ReleaseBehavior::Flush => {},
            ReleaseBehavior::NoFlush => {
                return Err(
                    Error::from_kind(
                        ErrorKind::NotSupported(
                            "flush control behavior GLX_ARB_context_flush_control",
                        ),
                    ),
                );
            },
        }
    }
    attrs.push(0);
    assert(attrs@ =~= spec_arb_attributes(profile, version, *attributes, *features));
    Ok(attrs)
}

/// The render type `glXCreateNewContext` gets: float for a config with float pixels.
pub fn legacy_render_type(float_pixels: bool) -> (r: i32)
    ensures
        r == (if float_pixels {
            glx::RGBA_FLOAT_TYPE_ARB
        } else {
            glx::RGBA_TYPE
        }),
{
    if float_pixels {
        glx::RGBA_FLOAT_TYPE_ARB
    } else {
        glx::RGBA_TYPE
    }
}

/// The context created, checked: a null context is a bad context.
pub fn check_created(context: usize) -> (r: Result<usize, Error>)
    ensures
        context == 0 ==> (r matches Err(e) && e.kind == ErrorKind::BadContext),
        context != 0 ==> r == Ok::<usize, Error>(context),
{
    if context == 0 {
        Err(Error::from_kind(ErrorKind::BadContext))
    } else {
        Ok(context)
    }
}

/// The Api a created context reports: OpenGL ES when it was asked for, else OpenGL.
pub fn created_context_api(requested: Option<ContextApi>) -> (r: ContextApi)
    ensures
        requested matches Some(ContextApi::Gles(_)) ==> r == ContextApi::Gles(None),
        !(requested matches Some(ContextApi::Gles(_))) ==> r == ContextApi::OpenGl(None),
{
    match requested {
        Some(ContextApi::Gles(_)) => ContextApi::Gles(None),
        _ => ContextApi::OpenGl(None),
    }
}

} // verus!
