//! The WGL (Windows) platform Api: the features a display's extensions give, where the
//! extension string is read from, and the cleanup after the dummy context that loads the
//! extension functions.
use vstd::prelude::*;
use vstd::string::StringSliceAdditionalSpecFns;

use crate::config::{DisplayFeatures, NativeDisplayHandle, NativeWindowHandle};
use crate::error::{Error, ErrorKind};
use crate::extensions::ExtensionSet;

pub mod config;
pub mod laws;
pub mod descriptor_laws;
pub mod consts;
pub mod surface;

verus! {

/// The features a display has by its WGL extensions.
pub open spec fn spec_display_features(exts: Set<Seq<u8>>) -> DisplayFeatures {
    DisplayFeatures {
        multisampling_pixel_formats: exts.contains("WGL_ARB_multisample".spec_bytes()),
        float_pixel_format: exts.contains("WGL_ARB_pixel_format_float".spec_bytes()),
        srgb_framebuffers: exts.contains("WGL_ARB_framebuffer_sRGB".spec_bytes()) || exts.contains(
            "WGL_EXT_framebuffer_sRGB".spec_bytes(),
        ) || exts.contains("WGL_EXT_colorspace".spec_bytes()),
        create_es_context: exts.contains("WGL_EXT_create_context_es2_profile".spec_bytes())
            || exts.contains("WGL_EXT_create_context_es_profile".spec_bytes()),
        swap_control: exts.contains("WGL_EXT_swap_control".spec_bytes()),
        context_robustness: exts.contains("WGL_ARB_create_context_robustness".spec_bytes()),
        context_release_behavior: exts.contains("WGL_ARB_context_flush_control".spec_bytes()),
        context_no_error: exts.contains("WGL_ARB_create_context_no_error".spec_bytes()),
    }
}

/// The features a display has by its WGL extensions.
pub fn extract_display_features(exts: &ExtensionSet) -> (r: DisplayFeatures)
    ensures
        r == spec_display_features(exts@),
{
    DisplayFeatures {
        multisampling_pixel_formats: exts.contains("WGL_ARB_multisample"),
        float_pixel_format: exts.contains("WGL_ARB_pixel_format_float"),
        srgb_framebuffers: exts.contains("WGL_ARB_framebuffer_sRGB") || exts.contains(
            "WGL_EXT_framebuffer_sRGB",
        ) || exts.contains("WGL_EXT_colorspace"),
        create_es_context: exts.contains("WGL_EXT_create_context_es2_profile") || exts.contains(
            "WGL_EXT_create_context_es_profile",
        ),
        swap_control: exts.contains("WGL_EXT_swap_control"),
        context_robustness: exts.contains("WGL_ARB_create_context_robustness"),
        context_release_behavior: exts.contains("WGL_ARB_context_flush_control"),
        context_no_error: exts.contains("WGL_ARB_create_context_no_error"),
    }
}

/// A WGL display is made on a Windows display only.
pub fn check_display_handle(handle: NativeDisplayHandle) -> (r: Result<(), Error>)
    ensures
        r is Ok <==> handle is Windows,
        r matches Err(e) ==> e.kind == ErrorKind::NotSupported(
            "provided native display is not supported",
        ),
{
    match handle {
        NativeDisplayHandle::Windows => Ok(()),
        _ => Err(Error::from_kind(ErrorKind::NotSupported("provided native display is not supported"))),
    }
}

/// Without `opengl32.dll` there is no WGL.
pub fn check_opengl32(loaded: bool) -> (r: Result<(), Error>)
    ensures
        r is Ok <==> loaded,
        r matches Err(e) ==> e.kind == ErrorKind::NotFound,
{
    if loaded {
        Ok(())
    } else {
        Err(Error::from_kind(ErrorKind::NotFound))
    }
}

/// The module instance and window the extension functions are loaded with: only a Win32
/// window serves; without one the display has no extensions.
pub fn extension_window(native_window: Option<NativeWindowHandle>) -> (r: Option<(isize, isize)>)
    ensures
        native_window matches Some(NativeWindowHandle::Win32 { hwnd, hinstance }) ==> r == Some(
            (hinstance, hwnd),
        ),
        !(native_window matches Some(NativeWindowHandle::Win32 { .. })) ==> r is None,
{
    match native_window {
        Some(NativeWindowHandle::Win32 { hwnd, hinstance }) => Some((hinstance, hwnd)),
        _ => None,
    }
}

/// Where the extension string of a display is read from.
#[derive(Debug, Clone, Copy, PartialEq, Eq, Structural)]
pub enum ExtensionSource {
    /// `wglGetExtensionsStringARB`, which takes the device context.
    Arb,
    /// `wglGetExtensionsStringEXT`.
    Ext,
    /// Neither is loaded: the display has no extensions.
    Neither,
}

/// The ARB query is preferred to the EXT one.
pub fn extension_source(arb_loaded: bool, ext_loaded: bool) -> (r: ExtensionSource)
    ensures
        arb_loaded ==> r == ExtensionSource::Arb,
        !arb_loaded && ext_loaded ==> r == ExtensionSource::Ext,
        !arb_loaded && !ext_loaded ==> r == ExtensionSource::Neither,
{
    if arb_loaded {
        ExtensionSource::Arb
    } else if ext_loaded {
        ExtensionSource::Ext
    } else {
        ExtensionSource::Neither
    }
}

/// The extensions of a display: the names of the string that was read, none where no string
/// could be read (or it was no UTF-8).
pub fn load_extensions(list: Option<&str>) -> (r: ExtensionSet)
    ensures
        list is Some ==> r@ == crate::extensions::split_spaces(list->0.spec_bytes()).to_set(),
        list is None ==> r@ == Set::<Seq<u8>>::empty(),
{
    match list {
        Some(l) => ExtensionSet::from_str(l),
        None => ExtensionSet::new(),
    }
}

/// The steps of the cleanup after the dummy window and context that load the WGL extension
/// functions.
#[derive(Debug, Clone, Copy, PartialEq, Eq, Structural)]
pub enum CleanupPhase {
    /// Nothing was done yet.
    Start,
    /// The binding that was current before is being restored.
    RestoringBinding,
    /// The current context is asked for, to detach the dummy if it is still current.
    CheckingDetach,
    /// The dummy context is being detached.
    Detaching,
    /// The current context is asked for, to delete the dummy if it is not current.
    CheckingDelete,
    /// The dummy context is being deleted.
    Deleting,
    /// The device context of the dummy window is being released.
    ReleasingDc,
    /// The dummy window is being destroyed.
    DestroyingWindow,
    /// Done.
    Finished,
}

/// What the cleanup asks to be done next.
#[derive(Debug, Clone, Copy, PartialEq, Eq, Structural)]
pub enum CleanupAction {
    /// `wglMakeCurrent(dc, context)`.
    MakeCurrent { dc: usize, context: usize },
    /// `wglGetCurrentContext()`.
    QueryCurrentContext,
    /// `wglDeleteContext(context)`.
    DeleteContext(usize),
    /// `ReleaseDC(window, hdc)`.
    ReleaseDc(usize),
    /// `DestroyWindow(window)`.
    DestroyWindow,
    /// Nothing more: the outcome can be taken.
    Finish,
}

/// What happened to the last action.
#[derive(Debug, PartialEq, Eq)]
pub enum CleanupEvent {
    /// The cleanup is started.
    Begin,
    /// A call returned: its success, or the error the system reported.
    Called(Result<(), Error>),
    /// `wglGetCurrentContext` returned this context.
    Current(usize),
}

/// An error of a cleanup call.
#[derive(Debug, Clone, PartialEq, Eq)]
pub enum CleanupError {
    /// The error the system reported for the call.
    Os(Error),
    /// `ReleaseDC` failed; it sets no last error.
    ReleaseDc,
}

/// The error a failed `ReleaseDC` is reported as: unclassified, without a code.
pub open spec fn is_release_dc_error(e: Error) -> bool {
    &&& e.kind == ErrorKind::Misc
    &&& e.raw_code is None
    &&& e.raw_os_message matches Some(m) && m@ == "dummy ReleaseDC failed"@
}

/// The cleanup after the dummy context: what was created, where it stands, and the first error
/// a cleanup call reported.
#[derive(Debug, Clone, PartialEq, Eq)]
pub struct DummyCleanup {
    /// Where the cleanup stands.
    pub phase: CleanupPhase,
    /// The device context that was current before.
    pub previous_dc: usize,
    /// The context that was current before.
    pub previous_context: usize,
    /// The dummy context, zero when none was created.
    pub context: usize,
    /// The device context of the dummy window, zero when none was obtained.
    pub hdc: usize,
    /// Whether the dummy was made current (or tried to be), which may have changed the binding.
    pub binding_attempted: bool,
    /// Whether no dummy context is left.
    pub context_deleted: bool,
    /// The first error a cleanup call reported.
    pub error: Option<CleanupError>,
}

/// The error kept: the first one.
pub open spec fn keep_first(kept: Option<CleanupError>, e: CleanupError) -> Option<CleanupError> {
    match kept {
        Some(k) => Some(k),
        None => Some(e),
    }
}

/// The state after a call returned `r`: an error is kept if none was before.
pub open spec fn record(s: DummyCleanup, r: Result<(), Error>) -> DummyCleanup {
    match r {
        Ok(()) => s,
        Err(e) => DummyCleanup { error: keep_first(s.error, CleanupError::Os(e)), ..s },
    }
}

/// Once no dummy context is left, release the device context (if there is one) and destroy the
/// window; while one is left, touch neither.
pub open spec fn after_delete(s: DummyCleanup) -> (DummyCleanup, CleanupAction) {
    if s.context_deleted {
        if s.hdc != 0 {
            (DummyCleanup { phase: CleanupPhase::ReleasingDc, ..s }, CleanupAction::ReleaseDc(s.hdc))
        } else {
            (DummyCleanup { phase: CleanupPhase::DestroyingWindow, ..s }, CleanupAction::DestroyWindow)
        }
    } else {
        (DummyCleanup { phase: CleanupPhase::Finished, ..s }, CleanupAction::Finish)
    }
}

/// After the detach step: a dummy context is deleted unless it is still current.
pub open spec fn after_detach(s: DummyCleanup) -> (DummyCleanup, CleanupAction) {
    if s.context != 0 {
        (DummyCleanup { phase: CleanupPhase::CheckingDelete, ..s }, CleanupAction::QueryCurrentContext)
    } else {
        after_delete(s)
    }
}

/// After the binding was restored: a dummy context that is still current is detached.
pub open spec fn after_restore(s: DummyCleanup) -> (DummyCleanup, CleanupAction) {
    if s.context != 0 {
        (DummyCleanup { phase: CleanupPhase::CheckingDetach, ..s }, CleanupAction::QueryCurrentContext)
    } else {
        after_detach(s)
    }
}

/// The cleanup's transitions: the state after `e` and the action it asks for next.
pub open spec fn spec_advance(s: DummyCleanup, e: CleanupEvent) -> (DummyCleanup, CleanupAction) {
    match (s.phase, e) {
        (CleanupPhase::Start, CleanupEvent::Begin) => {
            if s.binding_attempted {
                (
                    DummyCleanup { phase: CleanupPhase::RestoringBinding, ..s },
                    CleanupAction::MakeCurrent { dc: s.previous_dc, context: s.previous_context },
                )
            } else {
                after_restore(s)
            }
        },
        (CleanupPhase::RestoringBinding, CleanupEvent::Called(r)) => after_restore(record(s, r)),
        (CleanupPhase::CheckingDetach, CleanupEvent::Current(c)) => {
            if c == s.context {
                (
                    DummyCleanup { phase: CleanupPhase::Detaching, ..s },
                    CleanupAction::MakeCurrent { dc: 0, context: 0 },
                )
            } else {
                after_detach(s)
            }
        },
        (CleanupPhase::Detaching, CleanupEvent::Called(r)) => after_detach(record(s, r)),
        (CleanupPhase::CheckingDelete, CleanupEvent::Current(c)) => {
            if c != s.context {
                (
                    DummyCleanup { phase: CleanupPhase::Deleting, ..s },
                    CleanupAction::DeleteContext(s.context),
                )
            } else {
                after_delete(s)
            }
        },
        (CleanupPhase::Deleting, CleanupEvent::Called(r)) => match r {
            Ok(()) => after_delete(DummyCleanup { context_deleted: true, ..s }),
            Err(e) => after_delete(record(s, Err(e))),
        },
        (CleanupPhase::ReleasingDc, CleanupEvent::Called(r)) => {
            let s2 = match r {
                Ok(()) => s,
                Err(_) => DummyCleanup { error: keep_first(s.error, CleanupError::ReleaseDc), ..s },
            };
            (DummyCleanup { phase: CleanupPhase::DestroyingWindow, ..s2 }, CleanupAction::DestroyWindow)
        },
        (CleanupPhase::DestroyingWindow, CleanupEvent::Called(r)) => {
            (DummyCleanup { phase: CleanupPhase::Finished, ..record(s, r) }, CleanupAction::Finish)
        },
        _ => (s, CleanupAction::Finish),
    }
}

/// The device context is released and the window destroyed only once no dummy context is left.
pub open spec fn wf(s: DummyCleanup) -> bool {
    (s.phase is ReleasingDc || s.phase is DestroyingWindow) ==> s.context_deleted
}

/// Whether `e` answers the action the cleanup asked for last.
pub open spec fn expects(s: DummyCleanup, e: CleanupEvent) -> bool {
    match s.phase {
        CleanupPhase::Start => e is Begin,
        CleanupPhase::CheckingDetach | CleanupPhase::CheckingDelete => e is Current,
        CleanupPhase::Finished => false,
        _ => e is Called,
    }
}

/// The order of the phases: each step moves strictly forward.
pub open spec fn phase_rank(p: CleanupPhase) -> int {
    match p {
        CleanupPhase::Start => 0,
        CleanupPhase::RestoringBinding => 1,
        CleanupPhase::CheckingDetach => 2,
        CleanupPhase::Detaching => 3,
        CleanupPhase::CheckingDelete => 4,
        CleanupPhase::Deleting => 5,
        CleanupPhase::ReleasingDc => 6,
        CleanupPhase::DestroyingWindow => 7,
        CleanupPhase::Finished => 8,
    }
}

impl DummyCleanup {
    /// The cleanup of what the initialization left: the binding current before it, the dummy
    /// context and device context (zero when not obtained), and whether the dummy was made
    /// current.
    pub fn new(
        previous_dc: usize,
        previous_context: usize,
        context: usize,
        hdc: usize,
        binding_attempted: bool,
    ) -> (r: DummyCleanup)
        ensures
            wf(r),
            r == (DummyCleanup {
                phase: CleanupPhase::Start,
                previous_dc,
                previous_context,
                context,
                hdc,
                binding_attempted,
                context_deleted: context == 0,
                error: None,
            }),
    {
        DummyCleanup {
            phase: CleanupPhase::Start,
            previous_dc,
            previous_context,
            context,
            hdc,
            binding_attempted,
            context_deleted: context == 0,
            error: None,
        }
    }

    fn record(&mut self, r: Result<(), Error>)
        ensures
            *final(self) == record(*old(self), r),
    {
        match r {
            Ok(()) => {},
            Err(e) => {
                if self.error.is_none() {
                    self.error = Some(CleanupError::Os(e));
                }
            },
        }
    }

    fn go_after_delete(&mut self) -> (a: CleanupAction)
        ensures
            (*final(self), a) == after_delete(*old(self)),
    {
        if self.context_deleted {
            if self.hdc != 0 {
                self.phase = CleanupPhase::ReleasingDc;
                CleanupAction::ReleaseDc(self.hdc)
            } else {
                self.phase = CleanupPhase::DestroyingWindow;
                CleanupAction::DestroyWindow
            }
        } else {
            self.phase = CleanupPhase::Finished;
            CleanupAction::Finish
        }
    }

    fn go_after_detach(&mut self) -> (a: CleanupAction)
        ensures
            (*final(self), a) == after_detach(*old(self)),
    {
        if self.context != 0 {
            self.phase = CleanupPhase::CheckingDelete;
            CleanupAction::QueryCurrentContext
        } else {
            self.go_after_delete()
        }
    }

    fn go_after_restore(&mut self) -> (a: CleanupAction)
        ensures
            (*final(self), a) == after_restore(*old(self)),
    {
        if self.context != 0 {
            self.phase = CleanupPhase::CheckingDetach;
            CleanupAction::QueryCurrentContext
        } else {
            self.go_after_detach()
        }
    }

    /// Take in what happened to the last action and say what to do next.
    ///
    /// The device context is released and the window destroyed only once no dummy context is
    /// left; the first error a cleanup call reported is the one kept; every step moves the
    /// cleanup forward.
    pub fn advance(&mut self, event: CleanupEvent) -> (a: CleanupAction)
        requires
            wf(*old(self)),
            expects(*old(self), event),
        ensures
            wf(*final(self)),
            (*final(self), a) == spec_advance(*old(self), event),
            (a is ReleaseDc || a is DestroyWindow) ==> final(self).context_deleted,
            old(self).error is Some ==> final(self).error == old(self).error,
            phase_rank(final(self).phase) > phase_rank(old(self).phase),
            a is Finish <==> final(self).phase is Finished,
            !old(self).context_deleted && final(self).context_deleted ==> old(self).phase is Deleting
                && (event matches CleanupEvent::Called(Ok(()))),
    {
        match event {
            CleanupEvent::Begin => {
                if self.binding_attempted {
                    self.phase = CleanupPhase::RestoringBinding;
                    CleanupAction::MakeCurrent {
                        dc: self.previous_dc,
                        context: self.previous_context,
                    }
                } else {
                    self.go_after_restore()
                }
            },
            CleanupEvent::Current(c) => {
                match self.phase {
                    CleanupPhase::CheckingDetach => {
                        if c == self.context {
                            self.phase = CleanupPhase::Detaching;
                            CleanupAction::MakeCurrent { dc: 0, context: 0 }
                        } else {
                            self.go_after_detach()
                        }
                    },
                    _ => {
                        if c != self.context {
                            self.phase = CleanupPhase::Deleting;
                            CleanupAction::DeleteContext(self.context)
                        } else {
                            self.go_after_delete()
                        }
                    },
                }
            },
            CleanupEvent::Called(r) => {
                match self.phase {
                    CleanupPhase::RestoringBinding => {
                        self.record(r);
                        self.go_after_restore()
                    },
                    CleanupPhase::Detaching => {
                        self.record(r);
                        self.go_after_detach()
                    },
                    CleanupPhase::Deleting => {
                        match r {
                            Ok(()) => {
                                self.context_deleted = true;
                            },
                            Err(e) => {
                                self.record(Err(e));
                            },
                        }
                        self.go_after_delete()
                    },
                    CleanupPhase::ReleasingDc => {
                        match r {
                            Ok(()) => {},
                            Err(_) => {
                                if self.error.is_none() {
                                    self.error = Some(CleanupError::ReleaseDc);
                                }
                            },
                        }
                        self.phase = CleanupPhase::DestroyingWindow;
                        CleanupAction::DestroyWindow
                    },
                    _ => {
                        self.record(r);
                        self.phase = CleanupPhase::Finished;
                        CleanupAction::Finish
                    },
                }
            },
        }
    }

    /// The outcome of loading the extension functions: the initialization's error first; a
    /// cleanup error next, so a failed cleanup is never reported as success.
    pub fn outcome<T>(self, init: Result<T, Error>) -> (r: Result<T, Error>)
        ensures
            init is Err ==> r == init,
            init is Ok && self.error is None ==> r == init,
            init is Ok && self.error is Some ==> match self.error->0 {
                CleanupError::Os(e) => r == Err::<T, Error>(e),
                CleanupError::ReleaseDc => (r matches Err(e) && is_release_dc_error(e)),
            },
            r is Ok ==> init is Ok && self.error is None,
    {
        match init {
            Err(e) => Err(e),
            Ok(v) => match self.error {
                Some(CleanupError::Os(e)) => Err(e),
                Some(CleanupError::ReleaseDc) => {
                    let m = String::from_str("dummy ReleaseDC failed");
                    proof {
                        reveal_strlit("dummy ReleaseDC failed");
                    }
                    Err(Error::new(None, Some(m), ErrorKind::Misc))
                },
                None => Ok(v),
            },
        }
    }
}

} // verus!
