//! Context request types: versions, profiles, robustness and release behavior.
use vstd::prelude::*;

verus! {

/// A version of an Api, compared by major number first and minor number second.
#[derive(Debug, Clone, Copy, PartialEq, Eq)]
pub struct Version {
    /// The major part of the version.
    pub major: u8,
    /// The minor part of the version.
    pub minor: u8,
}

/// Whether version `(major, minor)` is at least `(want_major, want_minor)` in the lexicographic
/// order.
pub open spec fn version_at_least(major: int, minor: int, want_major: int, want_minor: int) -> bool {
    major > want_major || (major == want_major && minor >= want_minor)
}

impl Version {
    /// Create a new version.
    pub fn new(major: u8, minor: u8) -> (v: Self)
        ensures
            v.major == major,
            v.minor == minor,
    {
        Version { major, minor }
    }

    /// `self >= other` in the version order.
    pub open spec fn spec_at_least(self, other: Version) -> bool {
        version_at_least(self.major as int, self.minor as int, other.major as int, other.minor as int)
    }

    /// Whether this version is greater or equal to `(major, minor)`.
    pub fn at_least(&self, major: u8, minor: u8) -> (r: bool)
        ensures
            r == version_at_least(self.major as int, self.minor as int, major as int, minor as int),
    {
        self.major > major || (self.major == major && self.minor >= minor)
    }

    /// Whether this version is strictly greater than `(major, minor)`.
    pub fn greater_than(&self, major: u8, minor: u8) -> (r: bool)
        ensures
            r == (self.major > major || (self.major == major && self.minor > minor)),
    {
        self.major > major || (self.major == major && self.minor > minor)
    }
}

/// The profile of an OpenGL context.
#[derive(Debug, Clone, Copy, PartialEq, Eq)]
pub enum GlProfile {
    /// Include all the future-compatible functions and definitions.
    Core,
    /// Include all the immediate more functions and definitions.
    Compatibility,
}

/// The behavior of the driver when you change the current context.
#[derive(Debug, Clone, Copy, PartialEq, Eq)]
pub enum ReleaseBehavior {
    /// Doesn't do anything. Most notably doesn't flush.
    NoFlush,
    /// Flushes the context that was previously current as if `glFlush` was called.
    Flush,
}

/// Specifies the tolerance of the OpenGL context to faults.
#[derive(Debug, Clone, Copy, PartialEq, Eq)]
pub enum Robustness {
    /// Not everything is checked; out-of-bounds accesses are undefined behavior.
    NotRobust,
    /// The driver doesn't check for errors; errors are undefined behavior.
    NoError,
    /// Everything is checked; a lost context is not reported.
    RobustNoResetNotification,
    /// Everything is checked; a lost context is reported.
    RobustLoseContextOnReset,
    /// Like `RobustNoResetNotification`, but falls back to `NotRobust` when unsupported.
    TryRobustNoResetNotification,
    /// Like `RobustLoseContextOnReset`, but falls back to `NotRobust` when unsupported.
    TryRobustLoseContextOnReset,
}

/// The Api and version requested for a context.
#[derive(Debug, Clone, Copy, PartialEq, Eq)]
pub enum ContextApi {
    /// OpenGL Api, with the version, if one was requested.
    OpenGl(Option<Version>),
    /// OpenGL ES Api, with the version, if one was requested.
    Gles(Option<Version>),
}

impl ContextApi {
    /// The version that was requested, if any.
    pub open spec fn spec_version(self) -> Option<Version> {
        match self {
            ContextApi::OpenGl(v) => v,
            ContextApi::Gles(v) => v,
        }
    }

    /// Get the version that was requested.
    pub fn version(&self) -> (v: Option<Version>)
        ensures
            v == self.spec_version(),
    {
        match self {
            ContextApi::OpenGl(v) => *v,
            ContextApi::Gles(v) => *v,
        }
    }
}

} // verus!

verus! {

/// A raw context handle of one of the platform Apis, by its address or value.
#[derive(Debug, Clone, Copy, PartialEq, Eq)]
pub enum RawContext {
    /// An `EGLContext`.
    Egl(usize),
    /// A `GLXContext`.
    Glx(usize),
    /// A WGL `HGLRC`.
    Wgl(usize),
    /// A CGL `NSOpenGLContext`.
    Cgl(usize),
}

/// The attributes a context is requested with.
#[derive(Debug, Clone, Copy, PartialEq, Eq)]
pub struct ContextAttributes {
    /// The release behavior of the context.
    pub release_behavior: ReleaseBehavior,
    /// Debug context.
    pub debug: bool,
    /// The robustness of the context.
    pub robustness: Robustness,
    /// The profile, if one was requested.
    pub profile: Option<GlProfile>,
    /// The Api and version, if they were requested.
    pub api: Option<ContextApi>,
    /// The context to share objects with.
    pub shared_context: Option<RawContext>,
}

} // verus!
