//! Error kinds shared by every platform Api, and the errors of the legacy Api.
use vstd::prelude::*;

verus! {

/// The kind of an error reported by a platform Api.
#[derive(Debug, Clone, Copy, PartialEq, Eq)]
pub enum ErrorKind {
    /// The requested display wasn't found or some required symbol in it was missing.
    NotFound,
    /// Failed to perform resource initialization.
    InitializationFailed,
    /// Can't access a requested resource.
    BadAccess,
    /// An operation could not be completed, because it failed to allocate enough memory.
    OutOfMemory,
    /// An recognized attribute value was passed.
    BadAttribute,
    /// The context is no longer valid.
    BadContext,
    /// The context is in bad state.
    BadContextState,
    /// Invalid config was passed.
    BadConfig,
    /// The current surface of the calling thread is no longer valid.
    BadCurrentSurface,
    /// The display is no longer valid.
    BadDisplay,
    /// The surface is invalid.
    BadSurface,
    /// The pbuffer is invalid.
    BadPbuffer,
    /// The pixmap is invalid.
    BadPixmap,
    /// Arguments are inconsistent.
    BadMatch,
    /// One or more argument values are invalid.
    BadParameter,
    /// Bad native pixmap was provided.
    BadNativePixmap,
    /// Bad native window was provided.
    BadNativeWindow,
    /// The context was lost.
    ContextLost,
    /// The operation is not supported by the platform.
    NotSupported(&'static str),
    /// The misc error that can't be classified occurred.
    Misc,
}

/// A platform error: its kind, with the raw code the platform reported, if any.
#[derive(Debug, Clone, PartialEq, Eq)]
pub struct Error {
    /// The raw code of the underlying error.
    pub raw_code: Option<i64>,
    /// The raw message from the os in case it could be obtained.
    pub raw_os_message: Option<String>,
    /// The simplified error kind to handle matching.
    pub kind: ErrorKind,
}

impl Error {
    /// Build an error from its raw code, message and kind.
    pub fn new(raw_code: Option<i64>, raw_os_message: Option<String>, kind: ErrorKind) -> (e: Self)
        ensures
            e.raw_code == raw_code,
            e.raw_os_message == raw_os_message,
            e.kind == kind,
    {
        Error { raw_code, raw_os_message, kind }
    }

    /// An error that carries only its kind.
    pub fn from_kind(kind: ErrorKind) -> (e: Self)
        ensures
            e.raw_code is None,
            e.raw_os_message is None,
            e.kind == kind,
    {
        Error { raw_code: None, raw_os_message: None, kind }
    }

    /// An error the operating system reported: its last error code, where it has one, and its
    /// description. Such errors are not classified further.
    pub fn os_error(code: Option<i32>, description: String) -> (e: Self)
        ensures
            e.raw_code == (match code {
                Some(c) => Some(c as i64),
                None => None,
            }),
            e.raw_os_message == Some(description),
            e.kind == ErrorKind::Misc,
    {
        let raw_code = match code {
            Some(c) => Some(c as i64),
            None => None,
        };
        Error { raw_code, raw_os_message: Some(description), kind: ErrorKind::Misc }
    }

    /// Helper to check that error is [`ErrorKind::NotSupported`].
    pub fn not_supported(&self) -> (r: bool)
        ensures
            r == (self.kind is NotSupported),
    {
        matches!(self.kind, ErrorKind::NotSupported(_))
    }

    /// The underlying error kind.
    pub fn error_kind(&self) -> (k: ErrorKind)
        ensures
            k == self.kind,
    {
        self.kind
    }

    /// The underlying raw code in case it's present.
    pub fn raw_code(&self) -> (c: Option<i64>)
        ensures
            c == self.raw_code,
    {
        self.raw_code
    }
}

/// Errors of the legacy context creation Api.
#[derive(Debug, Clone, PartialEq, Eq)]
pub enum CreationError {
    /// The operating system reported an error.
    OsError(String),
    /// The requested feature is not supported.
    NotSupported(String),
    /// No backend could be loaded; the description says why.
    NoBackendAvailable(String),
    /// Robustness was requested but is not supported by the graphics API.
    RobustnessNotSupported,
    /// The OpenGL version requested is not supported by the graphics API.
    OpenGlVersionNotSupported,
    /// No available pixel format matched the criteria.
    NoAvailableConfig,
}

/// Errors of the legacy context Api once the context exists.
#[derive(Debug, Clone, PartialEq, Eq)]
pub enum ContextError {
    /// The operating system reported an error.
    OsError(String),
    /// An input/output error, described.
    IoError(String),
    /// The OpenGL context has been lost and needs to be recreated.
    ContextLost,
    /// A requested function is unavailable.
    FunctionUnavailable,
}

} // verus!
