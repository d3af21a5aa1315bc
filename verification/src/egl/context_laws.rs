//! What the attribute list `eglCreateContext` gets asks of a context with EGL 1.5 or
//! `EGL_KHR_create_context`, attribute by attribute.
use vstd::prelude::*;

use super::config::pair;
use super::consts as egl;
use super::context::{khr_attribute_list, robust_access, robustness_part, version_part};
use crate::attributes::{
    attribute_value, lemma_attribute_value_concat, lemma_attribute_value_pair,
    lemma_attribute_value_short, lemma_optional_pair, optional_pair,
};
use crate::context::{GlProfile, Robustness, Version};

verus! {

/// The names the laws below speak of.
spec fn context_name(k: i32) -> bool {
    k == egl::CONTEXT_OPENGL_PROFILE_MASK || k == egl::CONTEXT_MAJOR_VERSION || k
        == egl::CONTEXT_MINOR_VERSION || k == egl::CONTEXT_OPENGL_RESET_NOTIFICATION_STRATEGY || k
        == egl::CONTEXT_OPENGL_NO_ERROR_KHR || k == egl::CONTEXT_OPENGL_DEBUG || k
        == egl::CONTEXT_FLAGS_KHR
}

proof fn lemma_version_part_value(v: Option<Version>, k: i32)
    requires
        context_name(k),
    ensures
        version_part(v).len() % 2 == 0,
        attribute_value(version_part(v), k) == (match v {
            Some(v) => if k == egl::CONTEXT_MAJOR_VERSION {
                Some(v.major as i32)
            } else if k == egl::CONTEXT_MINOR_VERSION {
                Some(v.minor as i32)
            } else {
                None
            },
            None => None,
        }),
{
    match v {
        Some(ver) => {
            let ma = pair(egl::CONTEXT_MAJOR_VERSION, ver.major as i32);
            let mi = pair(egl::CONTEXT_MINOR_VERSION, ver.minor as i32);
            lemma_attribute_value_pair(egl::CONTEXT_MAJOR_VERSION, ver.major as i32, k);
            lemma_attribute_value_pair(egl::CONTEXT_MINOR_VERSION, ver.minor as i32, k);
            lemma_attribute_value_concat(ma, mi, k);
        },
        None => lemma_attribute_value_short(Seq::<i32>::empty(), k),
    }
}

proof fn lemma_robustness_part_value(r: Robustness, k: i32)
    requires
        context_name(k),
    ensures
        robustness_part(r).len() % 2 == 0,
        attribute_value(robustness_part(r), k) == (match r {
            Robustness::NoError => if k == egl::CONTEXT_OPENGL_NO_ERROR_KHR {
                Some(egl::TRUE)
            } else {
                None
            },
            Robustness::RobustLoseContextOnReset => if k
                == egl::CONTEXT_OPENGL_RESET_NOTIFICATION_STRATEGY {
                Some(egl::LOSE_CONTEXT_ON_RESET)
            } else {
                None
            },
            Robustness::RobustNoResetNotification => if k
                == egl::CONTEXT_OPENGL_RESET_NOTIFICATION_STRATEGY {
                Some(egl::NO_RESET_NOTIFICATION)
            } else {
                None
            },
            _ => None,
        }),
{
    match r {
        Robustness::NoError => lemma_attribute_value_pair(
            egl::CONTEXT_OPENGL_NO_ERROR_KHR,
            egl::TRUE,
            k,
        ),
        Robustness::RobustLoseContextOnReset => lemma_attribute_value_pair(
            egl::CONTEXT_OPENGL_RESET_NOTIFICATION_STRATEGY,
            egl::LOSE_CONTEXT_ON_RESET,
            k,
        ),
        Robustness::RobustNoResetNotification => lemma_attribute_value_pair(
            egl::CONTEXT_OPENGL_RESET_NOTIFICATION_STRATEGY,
            egl::NO_RESET_NOTIFICATION,
            k,
        ),
        _ => lemma_attribute_value_short(Seq::<i32>::empty(), k),
    }
}

/// The value the context list gives each of the names above.
spec fn context_value(
    api: u32,
    version: Option<Version>,
    opengl_profile: (GlProfile, Version),
    robustness: Robustness,
    debug: bool,
    is_one_five: bool,
    k: i32,
) -> Option<i32> {
    let is_opengl = api == egl::OPENGL_API;
    let v = if is_opengl {
        Some(opengl_profile.1)
    } else {
        version
    };
    if k == egl::CONTEXT_OPENGL_PROFILE_MASK {
        if is_opengl {
            Some(
                match opengl_profile.0 {
                    GlProfile::Core => egl::CONTEXT_OPENGL_CORE_PROFILE_BIT,
                    GlProfile::Compatibility => egl::CONTEXT_OPENGL_COMPATIBILITY_PROFILE_BIT,
                },
            )
        } else {
            None
        }
    } else if k == egl::CONTEXT_MAJOR_VERSION {
        match v {
            Some(v) => Some(v.major as i32),
            None => None,
        }
    } else if k == egl::CONTEXT_MINOR_VERSION {
        match v {
            Some(v) => Some(v.minor as i32),
            None => None,
        }
    } else if k == egl::CONTEXT_OPENGL_RESET_NOTIFICATION_STRATEGY {
        match robustness {
            Robustness::RobustLoseContextOnReset => Some(egl::LOSE_CONTEXT_ON_RESET),
            Robustness::RobustNoResetNotification => Some(egl::NO_RESET_NOTIFICATION),
            _ => None,
        }
    } else if k == egl::CONTEXT_OPENGL_NO_ERROR_KHR {
        if robustness is NoError {
            Some(egl::TRUE)
        } else {
            None
        }
    } else if k == egl::CONTEXT_OPENGL_DEBUG {
        if debug && is_one_five && !(robustness is NoError) {
            Some(egl::TRUE)
        } else {
            None
        }
    } else if robustness is RobustLoseContextOnReset || robustness is RobustNoResetNotification {
        Some(egl::CONTEXT_OPENGL_ROBUST_ACCESS_BIT_KHR)
    } else {
        None
    }
}

proof fn lemma_khr_value(
    api: u32,
    version: Option<Version>,
    opengl_profile: (GlProfile, Version),
    robustness: Robustness,
    debug: bool,
    is_one_five: bool,
    k: i32,
)
    requires
        context_name(k),
    ensures
        attribute_value(
            khr_attribute_list(api, version, opengl_profile, robustness, debug, is_one_five),
            k,
        ) == context_value(api, version, opengl_profile, robustness, debug, is_one_five, k),
{
    let is_opengl = api == egl::OPENGL_API;
    let bit = match opengl_profile.0 {
        GlProfile::Core => egl::CONTEXT_OPENGL_CORE_PROFILE_BIT,
        GlProfile::Compatibility => egl::CONTEXT_OPENGL_COMPATIBILITY_PROFILE_BIT,
    };
    let p = optional_pair(is_opengl, egl::CONTEXT_OPENGL_PROFILE_MASK, bit);
    let v = version_part(
        if is_opengl {
            Some(opengl_profile.1)
        } else {
            version
        },
    );
    let r = robustness_part(robustness);
    let d = optional_pair(
        debug && is_one_five && !(robustness is NoError),
        egl::CONTEXT_OPENGL_DEBUG,
        egl::TRUE,
    );
    let f = optional_pair(
        robust_access(robustness),
        egl::CONTEXT_FLAGS_KHR,
        egl::CONTEXT_OPENGL_ROBUST_ACCESS_BIT_KHR,
    );
    let n = seq![egl::NONE];
    assert(khr_attribute_list(api, version, opengl_profile, robustness, debug, is_one_five)
        =~= p + v + r + d + f + n);
    lemma_optional_pair(is_opengl, egl::CONTEXT_OPENGL_PROFILE_MASK, bit, k);
    lemma_version_part_value(
        if is_opengl {
            Some(opengl_profile.1)
        } else {
            version
        },
        k,
    );
    lemma_robustness_part_value(robustness, k);
    lemma_optional_pair(
        debug && is_one_five && !(robustness is NoError),
        egl::CONTEXT_OPENGL_DEBUG,
        egl::TRUE,
        k,
    );
    lemma_optional_pair(
        robust_access(robustness),
        egl::CONTEXT_FLAGS_KHR,
        egl::CONTEXT_OPENGL_ROBUST_ACCESS_BIT_KHR,
        k,
    );
    lemma_attribute_value_short(n, k);
    lemma_attribute_value_concat(p, v, k);
    lemma_attribute_value_concat(p + v, r, k);
    lemma_attribute_value_concat(p + v + r, d, k);
    lemma_attribute_value_concat(p + v + r + d, f, k);
    lemma_attribute_value_concat(p + v + r + d + f, n, k);
}

/// A robust context asks for its reset notification strategy (lose the context on reset, or
/// no notification) and for robust access; a no-error context asks for no error checking;
/// neither is asked for otherwise.
pub proof fn lemma_context_robustness(
    api: u32,
    version: Option<Version>,
    opengl_profile: (GlProfile, Version),
    robustness: Robustness,
    debug: bool,
    is_one_five: bool,
)
    ensures
        ({
            let l = khr_attribute_list(api, version, opengl_profile, robustness, debug, is_one_five);
            &&& attribute_value(l, egl::CONTEXT_OPENGL_RESET_NOTIFICATION_STRATEGY) == (
            match robustness {
                Robustness::RobustLoseContextOnReset => Some(egl::LOSE_CONTEXT_ON_RESET),
                Robustness::RobustNoResetNotification => Some(egl::NO_RESET_NOTIFICATION),
                _ => None::<i32>,
            })
            &&& attribute_value(l, egl::CONTEXT_FLAGS_KHR) == (if robustness is RobustLoseContextOnReset
                || robustness is RobustNoResetNotification {
                Some(egl::CONTEXT_OPENGL_ROBUST_ACCESS_BIT_KHR)
            } else {
                None
            })
            &&& attribute_value(l, egl::CONTEXT_OPENGL_NO_ERROR_KHR) == (if robustness is NoError {
                Some(egl::TRUE)
            } else {
                None
            })
        }),
{
    lemma_khr_value(
        api,
        version,
        opengl_profile,
        robustness,
        debug,
        is_one_five,
        egl::CONTEXT_OPENGL_RESET_NOTIFICATION_STRATEGY,
    );
    lemma_khr_value(
        api,
        version,
        opengl_profile,
        robustness,
        debug,
        is_one_five,
        egl::CONTEXT_FLAGS_KHR,
    );
    lemma_khr_value(
        api,
        version,
        opengl_profile,
        robustness,
        debug,
        is_one_five,
        egl::CONTEXT_OPENGL_NO_ERROR_KHR,
    );
}

/// A context of another Api than OpenGL asks for no profile, and for the version it is made at
/// where there is one; debugging is asked for only with EGL 1.5, when wanted, and never for a
/// no-error context.
pub proof fn lemma_context_version_and_debug(
    api: u32,
    version: Option<Version>,
    opengl_profile: (GlProfile, Version),
    robustness: Robustness,
    debug: bool,
    is_one_five: bool,
)
    ensures
        ({
            let l = khr_attribute_list(api, version, opengl_profile, robustness, debug, is_one_five);
            &&& api != egl::OPENGL_API ==> {
                &&& attribute_value(l, egl::CONTEXT_OPENGL_PROFILE_MASK) is None
                &&& attribute_value(l, egl::CONTEXT_MAJOR_VERSION) == (match version {
                    Some(v) => Some(v.major as i32),
                    None => None::<i32>,
                })
                &&& attribute_value(l, egl::CONTEXT_MINOR_VERSION) == (match version {
                    Some(v) => Some(v.minor as i32),
                    None => None::<i32>,
                })
            }
            &&& attribute_value(l, egl::CONTEXT_OPENGL_DEBUG) == (if debug && is_one_five
                && !(robustness is NoError) {
                Some(egl::TRUE)
            } else {
                None
            })
        }),
{
    lemma_khr_value(
        api,
        version,
        opengl_profile,
        robustness,
        debug,
        is_one_five,
        egl::CONTEXT_OPENGL_PROFILE_MASK,
    );
    lemma_khr_value(
        api,
        version,
        opengl_profile,
        robustness,
        debug,
        is_one_five,
        egl::CONTEXT_MAJOR_VERSION,
    );
    lemma_khr_value(
        api,
        version,
        opengl_profile,
        robustness,
        debug,
        is_one_five,
        egl::CONTEXT_MINOR_VERSION,
    );
    lemma_khr_value(
        api,
        version,
        opengl_profile,
        robustness,
        debug,
        is_one_five,
        egl::CONTEXT_OPENGL_DEBUG,
    );
}

} // verus!
