//! What the attribute list `glXCreateContextAttribsARB` gets asks of a context: robustness and
//! flags.
use vstd::prelude::*;

use super::config::pair;
use super::consts as glx;
use super::context::{context_flags, profile_bit, robust_access, robustness_part, spec_arb_attributes};
use crate::attributes::{
    attribute_value, lemma_attribute_value_concat, lemma_attribute_value_pair,
    lemma_attribute_value_short, lemma_optional_pair, optional_pair,
};
use crate::config::DisplayFeatures;
use crate::context::{ContextAttributes, ReleaseBehavior, Robustness, Version};

verus! {

/// The flags of a context have the robust access bit exactly for a robust request on a
/// display with robustness support, and the debug bit exactly for a debug request.
pub proof fn lemma_glx_context_flags(a: ContextAttributes, f: DisplayFeatures)
    ensures
        context_flags(a, f) & glx::CONTEXT_ROBUST_ACCESS_BIT_ARB != 0 <==> (f.context_robustness
            && (a.robustness is RobustNoResetNotification || a.robustness is TryRobustNoResetNotification
            || a.robustness is RobustLoseContextOnReset || a.robustness is TryRobustLoseContextOnReset)),
        context_flags(a, f) & glx::CONTEXT_DEBUG_BIT_ARB != 0 <==> a.debug,
        context_flags(a, f) == 0 <==> !a.debug && !(f.context_robustness && robust_access(a.robustness)),
{
    let r: i32 = if f.context_robustness && robust_access(a.robustness) { 4i32 } else { 0i32 };
    let d: i32 = if a.debug { 1i32 } else { 0i32 };
    assert(context_flags(a, f) == r | d);
    assert(((r | d) & 4 != 0 <==> r == 4) && ((r | d) & 1 != 0 <==> d == 1) && ((r | d) == 0
        <==> (r == 0 && d == 0))) by (bit_vector)
        requires
            r == 0 || r == 4,
            d == 0 || d == 1,
    ;
}

/// The names the law below speaks of.
spec fn robust_name(k: i32) -> bool {
    k == glx::CONTEXT_RESET_NOTIFICATION_STRATEGY_ARB || k == glx::CONTEXT_FLAGS_ARB || k
        == glx::CONTEXT_RELEASE_BEHAVIOR_ARB
}

/// A context request asks, with robustness support, for the reset notification strategy its
/// robustness names (the `Try` variants as the variant they try), and for no strategy without
/// that support or for no robustness; it asks for its flags where it has any, and for no flush
/// on release where that is wanted and supported. (A no-error request is left out: its token
/// stands alone in the list.)
pub proof fn lemma_glx_context_robustness(
    profile: i32,
    version: Version,
    a: ContextAttributes,
    f: DisplayFeatures,
)
    requires
        !(a.robustness is NoError),
    ensures
        attribute_value(
            spec_arb_attributes(profile, version, a, f),
            glx::CONTEXT_RESET_NOTIFICATION_STRATEGY_ARB,
        ) == (if f.context_robustness {
            match a.robustness {
                Robustness::RobustNoResetNotification
                | Robustness::TryRobustNoResetNotification => Some(glx::NO_RESET_NOTIFICATION_ARB),
                Robustness::RobustLoseContextOnReset
                | Robustness::TryRobustLoseContextOnReset => Some(glx::LOSE_CONTEXT_ON_RESET_ARB),
                _ => None::<i32>,
            }
        } else {
            None
        }),
        attribute_value(spec_arb_attributes(profile, version, a, f), glx::CONTEXT_FLAGS_ARB) == (
        if context_flags(a, f) != 0 {
            Some(context_flags(a, f))
        } else {
            None
        }),
        attribute_value(spec_arb_attributes(profile, version, a, f), glx::CONTEXT_RELEASE_BEHAVIOR_ARB)
            == (if f.context_release_behavior && a.release_behavior is NoFlush {
            Some(glx::CONTEXT_RELEASE_BEHAVIOR_NONE_ARB)
        } else {
            None
        }),
{
    lemma_robust_value(profile, version, a, f, glx::CONTEXT_RESET_NOTIFICATION_STRATEGY_ARB);
    lemma_robust_value(profile, version, a, f, glx::CONTEXT_FLAGS_ARB);
    lemma_robust_value(profile, version, a, f, glx::CONTEXT_RELEASE_BEHAVIOR_ARB);
}

proof fn lemma_robust_value(
    profile: i32,
    version: Version,
    a: ContextAttributes,
    f: DisplayFeatures,
    k: i32,
)
    requires
        !(a.robustness is NoError),
        robust_name(k),
    ensures
        attribute_value(spec_arb_attributes(profile, version, a, f), k) == (if k
            == glx::CONTEXT_RESET_NOTIFICATION_STRATEGY_ARB {
            if f.context_robustness {
                match a.robustness {
                    Robustness::RobustNoResetNotification
                    | Robustness::TryRobustNoResetNotification => Some(glx::NO_RESET_NOTIFICATION_ARB),
                    Robustness::RobustLoseContextOnReset
                    | Robustness::TryRobustLoseContextOnReset => Some(glx::LOSE_CONTEXT_ON_RESET_ARB),
                    _ => None::<i32>,
                }
            } else {
                None
            }
        } else if k == glx::CONTEXT_FLAGS_ARB {
            if context_flags(a, f) != 0 {
                Some(context_flags(a, f))
            } else {
                None
            }
        } else if f.context_release_behavior && a.release_behavior is NoFlush {
            Some(glx::CONTEXT_RELEASE_BEHAVIOR_NONE_ARB)
        } else {
            None
        }),
{
    let p = pair(glx::CONTEXT_PROFILE_MASK_ARB, profile);
    let ma = pair(glx::CONTEXT_MAJOR_VERSION_ARB, version.major as i32);
    let mi = pair(glx::CONTEXT_MINOR_VERSION_ARB, version.minor as i32);
    let op = optional_pair(
        a.profile is Some,
        glx::CONTEXT_PROFILE_MASK_ARB,
        profile_bit(a.profile->0),
    );
    let robust = robust_access(a.robustness);
    let rv = if a.robustness is RobustNoResetNotification || a.robustness is TryRobustNoResetNotification {
        glx::NO_RESET_NOTIFICATION_ARB
    } else {
        glx::LOSE_CONTEXT_ON_RESET_ARB
    };
    let r = optional_pair(
        f.context_robustness && robust,
        glx::CONTEXT_RESET_NOTIFICATION_STRATEGY_ARB,
        rv,
    );
    let fl = optional_pair(context_flags(a, f) != 0, glx::CONTEXT_FLAGS_ARB, context_flags(a, f));
    let rb = optional_pair(
        f.context_release_behavior && a.release_behavior is NoFlush,
        glx::CONTEXT_RELEASE_BEHAVIOR_ARB,
        glx::CONTEXT_RELEASE_BEHAVIOR_NONE_ARB,
    );
    let z = seq![0i32];
    assert((if f.context_robustness {
        robustness_part(a.robustness)
    } else {
        seq![]
    }) == r);
    assert(spec_arb_attributes(profile, version, a, f) =~= p + ma + mi + op + r + fl + rb + z);
    lemma_attribute_value_pair(glx::CONTEXT_PROFILE_MASK_ARB, profile, k);
    lemma_attribute_value_pair(glx::CONTEXT_MAJOR_VERSION_ARB, version.major as i32, k);
    lemma_attribute_value_pair(glx::CONTEXT_MINOR_VERSION_ARB, version.minor as i32, k);
    lemma_optional_pair(a.profile is Some, glx::CONTEXT_PROFILE_MASK_ARB, profile_bit(a.profile->0), k);
    lemma_optional_pair(
        f.context_robustness && robust,
        glx::CONTEXT_RESET_NOTIFICATION_STRATEGY_ARB,
        rv,
        k,
    );
    lemma_optional_pair(context_flags(a, f) != 0, glx::CONTEXT_FLAGS_ARB, context_flags(a, f), k);
    lemma_optional_pair(
        f.context_release_behavior && a.release_behavior is NoFlush,
        glx::CONTEXT_RELEASE_BEHAVIOR_ARB,
        glx::CONTEXT_RELEASE_BEHAVIOR_NONE_ARB,
        k,
    );
    lemma_attribute_value_short(z, k);
    lemma_attribute_value_concat(p, ma, k);
    lemma_attribute_value_concat(p + ma, mi, k);
    lemma_attribute_value_concat(p + ma + mi, op, k);
    lemma_attribute_value_concat(p + ma + mi + op, r, k);
    lemma_attribute_value_concat(p + ma + mi + op + r, fl, k);
    lemma_attribute_value_concat(p + ma + mi + op + r + fl, rb, k);
    lemma_attribute_value_concat(p + ma + mi + op + r + fl + rb, z, k);
}

} // verus!
