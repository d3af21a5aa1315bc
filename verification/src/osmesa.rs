//! The OSMesa backend: the attribute list of an off-screen context and the errors it refuses a
//! request with.
use vstd::prelude::*;

use crate::attributes::{
    attribute_value, lemma_attribute_value_concat, lemma_attribute_value_short,
    lemma_optional_pair, optional_pair,
};

use crate::context::{GlProfile, Robustness};
use crate::error::CreationError;
use crate::legacy::{GlApi, GlRequest, GlVersion};

verus! {

/// `OSMESA_PROFILE`.
pub const OSMESA_PROFILE: i32 = 0x33;
/// `OSMESA_CORE_PROFILE`.
pub const OSMESA_CORE_PROFILE: i32 = 0x34;
/// `OSMESA_COMPAT_PROFILE`.
pub const OSMESA_COMPAT_PROFILE: i32 = 0x35;
/// `OSMESA_CONTEXT_MAJOR_VERSION`.
pub const OSMESA_CONTEXT_MAJOR_VERSION: i32 = 0x36;
/// `OSMESA_CONTEXT_MINOR_VERSION`.
pub const OSMESA_CONTEXT_MINOR_VERSION: i32 = 0x37;

/// The library, or a symbol of it, could not be loaded; the text describes why.
#[derive(Debug, Clone, PartialEq, Eq)]
pub struct LoadingError(pub String);

/// The debug text of a value.
#[verifier::external_body]
fn debug_text<D: core::fmt::Debug>(d: &D) -> String {
    format!("{:?}", d)
}

impl LoadingError {
    /// The loading error described by the debug text of `d`.
    pub fn new<D: core::fmt::Debug>(d: D) -> (r: LoadingError) {
        LoadingError(debug_text(&d))
    }
}

/// The profile part of the attribute list.
pub open spec fn profile_part(profile: Option<GlProfile>) -> Seq<i32> {
    match profile {
        None => seq![],
        Some(GlProfile::Compatibility) => seq![OSMESA_PROFILE, OSMESA_COMPAT_PROFILE],
        Some(GlProfile::Core) => seq![OSMESA_PROFILE, OSMESA_CORE_PROFILE],
    }
}

/// The version part of the attribute list.
pub open spec fn version_part(version: Option<GlVersion>) -> Seq<i32> {
    match version {
        None => seq![],
        Some(GlVersion(major, minor)) => seq![
            OSMESA_CONTEXT_MAJOR_VERSION,
            major as i32,
            OSMESA_CONTEXT_MINOR_VERSION,
            minor as i32,
        ],
    }
}

/// The version of OpenGL a request pins, if any; `None` inside `Some` when it pins none.
/// The outer `None` is a request OSMesa cannot serve.
pub open spec fn requested_version(request: GlRequest) -> Option<Option<GlVersion>> {
    match request {
        GlRequest::Latest => Some(None),
        GlRequest::Specific(GlApi::OpenGl, v) => Some(Some(v)),
        GlRequest::Specific(_, _) => None,
        GlRequest::GlThenGles { opengl_version, .. } => Some(Some(opengl_version)),
    }
}

/// An OSMesa context asks for the core profile for a core request and the compatibility
/// profile for a compatibility one, and for no profile otherwise; it asks for the OpenGL
/// version the request pins (the OpenGL version of a request for OpenGL then OpenGL ES), and
/// for no version when it pins none.
pub proof fn lemma_osmesa_attributes(profile: Option<GlProfile>, request: GlRequest)
    requires
        requested_version(request) is Some,
    ensures
        ({
            let l = profile_part(profile) + version_part(requested_version(request)->0) + seq![0i32];
            let pinned = match request {
                GlRequest::Latest => None::<GlVersion>,
                GlRequest::Specific(_, v) => Some(v),
                GlRequest::GlThenGles { opengl_version, .. } => Some(opengl_version),
            };
            &&& attribute_value(l, OSMESA_PROFILE) == (match profile {
                Some(GlProfile::Core) => Some(OSMESA_CORE_PROFILE),
                Some(GlProfile::Compatibility) => Some(OSMESA_COMPAT_PROFILE),
                None => None::<i32>,
            })
            &&& attribute_value(l, OSMESA_CONTEXT_MAJOR_VERSION) == (match pinned {
                Some(GlVersion(major, _)) => Some(major as i32),
                None => None::<i32>,
            })
            &&& attribute_value(l, OSMESA_CONTEXT_MINOR_VERSION) == (match pinned {
                Some(GlVersion(_, minor)) => Some(minor as i32),
                None => None::<i32>,
            })
        }),
{
    let v = requested_version(request)->0;
    let ver = v->0;
    let pb = if profile == Some(GlProfile::Core) {
        OSMESA_CORE_PROFILE
    } else {
        OSMESA_COMPAT_PROFILE
    };
    let pp = optional_pair(profile is Some, OSMESA_PROFILE, pb);
    let ma = optional_pair(v is Some, OSMESA_CONTEXT_MAJOR_VERSION, ver.0 as i32);
    let mi = optional_pair(v is Some, OSMESA_CONTEXT_MINOR_VERSION, ver.1 as i32);
    let z = seq![0i32];
    assert(profile_part(profile) == pp);
    assert(version_part(v) =~= ma + mi);
    assert forall|k: i32|
        k == OSMESA_PROFILE || k == OSMESA_CONTEXT_MAJOR_VERSION || k
            == OSMESA_CONTEXT_MINOR_VERSION implies #[trigger] attribute_value(pp + (ma + mi) + z, k)
        == (if k == OSMESA_PROFILE {
        if profile is Some {
            Some(pb)
        } else {
            None
        }
    } else if k == OSMESA_CONTEXT_MAJOR_VERSION {
        if v is Some {
            Some(ver.0 as i32)
        } else {
            None
        }
    } else if v is Some {
        Some(ver.1 as i32)
    } else {
        None
    }) by {
        lemma_optional_pair(profile is Some, OSMESA_PROFILE, pb, k);
        lemma_optional_pair(v is Some, OSMESA_CONTEXT_MAJOR_VERSION, ver.0 as i32, k);
        lemma_optional_pair(v is Some, OSMESA_CONTEXT_MINOR_VERSION, ver.1 as i32, k);
        lemma_attribute_value_short(z, k);
        lemma_attribute_value_concat(ma, mi, k);
        lemma_attribute_value_concat(pp, ma + mi, k);
        lemma_attribute_value_concat(pp + (ma + mi), z, k);
    }
}

/// Whether robustness was requested, which OSMesa cannot give.
pub open spec fn robust(r: Robustness) -> bool {
    r == Robustness::RobustNoResetNotification || r == Robustness::RobustLoseContextOnReset
}

/// The zero terminated attribute list `OSMesaCreateContextAttribs` gets for a request.
///
/// Robust contexts are refused first; then a request for OpenGL ES or WebGL is refused as no
/// backend being available.
pub fn context_attributes(robustness: Robustness, profile: Option<GlProfile>, request: GlRequest) -> (r:
    Result<Vec<i32>, CreationError>)
    ensures
        robust(robustness) ==> r == Err::<Vec<i32>, CreationError>(
            CreationError::RobustnessNotSupported,
        ),
        !robust(robustness) && requested_version(request) is None ==> (r matches Err(
            CreationError::NoBackendAvailable(m),
        ) && m@
            == "OsMesa only works with desktop OpenGL; OpenGL ES or WebGL are not supported"@),
        r is Ok <==> !robust(robustness) && requested_version(request) is Some,
        r matches Ok(a) ==> a@ == profile_part(profile) + version_part(
            requested_version(request)->0,
        ) + seq![0i32],
{
    match robustness {
        Robustness::RobustNoResetNotification | Robustness::RobustLoseContextOnReset => {
            return Err(CreationError::RobustnessNotSupported);
        },
        _ => {},
    }
    let mut attribs: Vec<i32> = Vec::new();
    match profile {
        Some(GlProfile::Compatibility) => {
            attribs.push(OSMESA_PROFILE);
            attribs.push(OSMESA_COMPAT_PROFILE);
        },
        Some(GlProfile::Core) => {
            attribs.push(OSMESA_PROFILE);
            attribs.push(OSMESA_CORE_PROFILE);
        },
        None => {},
    }
    let ghost head = attribs@;
    let version = match request {
        GlRequest::Latest => None,
        GlRequest::Specific(GlApi::OpenGl, v) => Some(v),
        GlRequest::Specific(_, _) => {
            let m = String::from_str(
                "OsMesa only works with desktop OpenGL; OpenGL ES or WebGL are not supported",
            );
            return Err(CreationError::NoBackendAvailable(m));
        },
        GlRequest::GlThenGles { opengl_version, .. } => Some(opengl_version),
    };
    match version {
        Some(GlVersion(major, minor)) => {
            attribs.push(OSMESA_CONTEXT_MAJOR_VERSION);
            attribs.push(major as i32);
            attribs.push(OSMESA_CONTEXT_MINOR_VERSION);
            attribs.push(minor as i32);
        },
        None => {},
    }
    attribs.push(0);
    assert(attribs@ =~= profile_part(profile) + version_part(version) + seq![0i32]);
    Ok(attribs)
}

/// The number of pixels of the buffer an off-screen context of `width` by `height` renders
/// into.
pub fn buffer_len(width: u32, height: u32) -> (r: usize)
    requires
        width * height <= u32::MAX,
    ensures
        r == width * height,
{
    let n: u32 = width * height;
    n as usize
}

} // verus!
