//! The Android backend: a windowed context is stopped while its native window is gone, and a
//! stopped context refuses to be made current or to swap.
use vstd::prelude::*;

use crate::error::{ContextError, CreationError};

verus! {

/// What the activity tells a context.
#[derive(Debug, Clone, Copy, PartialEq, Eq, Structural)]
pub enum AndroidEvent {
    /// The native window is about to be destroyed.
    TermWindow,
    /// Any other event of the activity.
    Other,
}

/// What the EGL context does with its surface when the activity is suspended or resumed.
#[derive(Debug, Clone, Copy, PartialEq, Eq, Structural)]
pub enum SurfaceAction {
    /// Release the surface: the activity was stopped or sent to the background.
    Destroy,
    /// Make the surface again on the new native window: the activity came back.
    Create,
}

/// The life of an Android context: a windowed context is stopped or running; a headless one
/// never stops.
#[derive(Debug, Clone, Copy, PartialEq, Eq, Structural)]
pub struct AndroidLifecycle {
    stopped: Option<bool>,
}

impl AndroidLifecycle {
    /// Whether the context is windowed.
    pub closed spec fn spec_windowed(self) -> bool {
        self.stopped is Some
    }

    /// Whether the context is stopped.
    pub closed spec fn spec_stopped(self) -> bool {
        self.stopped == Some(true)
    }

    /// The life of a windowed context: running.
    pub fn windowed() -> (r: Self)
        ensures
            r.spec_windowed(),
            !r.spec_stopped(),
    {
        AndroidLifecycle { stopped: Some(false) }
    }

    /// The life of a headless context: it never stops.
    pub fn headless() -> (r: Self)
        ensures
            !r.spec_windowed(),
            !r.spec_stopped(),
    {
        AndroidLifecycle { stopped: None }
    }

    /// The native window a windowed context is made on, checked: it must exist.
    pub fn check_native_window(native_window: usize) -> (r: Result<(), CreationError>)
        ensures
            r is Ok <==> native_window != 0,
            r matches Err(e) ==> (e matches CreationError::OsError(m) && m@
                == "Android's native window is null"@),
    {
        if native_window == 0 {
            let m = String::from_str("Android's native window is null");
            Err(CreationError::OsError(m))
        } else {
            Ok(())
        }
    }

    /// An event of the activity: the window's end stops the context, before the surface is
    /// gone; other events change nothing.
    pub fn handle(&mut self, event: AndroidEvent)
        requires
            old(self).spec_windowed(),
        ensures
            final(self).spec_windowed(),
            event is TermWindow ==> final(self).spec_stopped(),
            event is Other ==> final(self).spec_stopped() == old(self).spec_stopped(),
    {
        match event {
            AndroidEvent::TermWindow => {
                self.stopped = Some(true);
            },
            AndroidEvent::Other => {},
        }
    }

    /// The activity was suspended or resumed: the context is stopped exactly while it is
    /// suspended, and its surface goes and comes with it.
    pub fn set_suspended(&mut self, suspended: bool) -> (a: SurfaceAction)
        requires
            old(self).spec_windowed(),
        ensures
            final(self).spec_windowed(),
            final(self).spec_stopped() == suspended,
            suspended ==> a == SurfaceAction::Destroy,
            !suspended ==> a == SurfaceAction::Create,
    {
        self.stopped = Some(suspended);
        if suspended {
            SurfaceAction::Destroy
        } else {
            SurfaceAction::Create
        }
    }

    /// Whether the context may be made current or swap: a stopped context is lost.
    pub fn check_running(&self) -> (r: Result<(), ContextError>)
        ensures
            r is Ok <==> !self.spec_stopped(),
            r is Err ==> r == Err::<(), ContextError>(ContextError::ContextLost),
    {
        match self.stopped {
            Some(true) => Err(ContextError::ContextLost),
            _ => Ok(()),
        }
    }
}

} // verus!
