//! The guard that makes an EGL context current for a while and gives back the binding that was
//! current before, unless that binding was destroyed meanwhile.
use vstd::prelude::*;

use crate::error::{Error, ErrorKind};

verus! {

/// The binding current before the guard: draw and read surfaces, and context.
#[derive(Debug, Clone, Copy, PartialEq, Eq, Structural)]
pub struct SavedBinding {
    /// The draw surface.
    pub draw: usize,
    /// The read surface.
    pub read: usize,
    /// The context.
    pub context: usize,
}

/// A guard over a binding made current. Dropping it makes current again the binding saved when
/// it was made, on the display that was current then (or the guard's own display when none
/// was), or nothing where the saved binding became invalid. A guard made to keep leaves a valid
/// saved binding alone.
#[derive(Debug, Clone, Copy, PartialEq, Eq, Structural)]
pub struct MakeCurrentGuard {
    display: usize,
    old_display: usize,
    possibly_invalid: Option<SavedBinding>,
    keep: bool,
}

/// The `eglMakeCurrent` call a guard makes when it goes: `None` for no call.
pub open spec fn spec_restore_call(
    display: usize,
    old_display: usize,
    saved: Option<SavedBinding>,
    keep: bool,
) -> Option<(usize, SavedBinding)> {
    let display = if old_display == 0 {
        display
    } else {
        old_display
    };
    match saved {
        Some(saved) => if keep {
            None
        } else {
            Some((display, saved))
        },
        None => Some((display, SavedBinding { draw: 0, read: 0, context: 0 })),
    }
}

/// Whether a saved binding shares a surface or context with a binding about to be destroyed:
/// the draw or read surface, or the context, where it is not the null handle.
pub open spec fn spec_shares_any(saved: SavedBinding, draw: usize, read: usize, context: usize) -> bool {
    (saved.draw == draw && draw != 0) || (saved.read == read && read != 0) || (saved.context
        == context && saved.context != 0)
}

/// The message of a failed `eglMakeCurrent`.
#[verifier::external_body]
fn make_current_message(code: u32) -> String {
    format!("eglMakeCurrent failed with 0x{:x}", code)
}

impl MakeCurrentGuard {
    /// The display the guard made its binding current on.
    pub closed spec fn spec_display(self) -> usize {
        self.display
    }

    /// The display current when the guard was made.
    pub closed spec fn spec_old_display(self) -> usize {
        self.old_display
    }

    /// The binding saved, while it is valid.
    pub closed spec fn spec_saved(self) -> Option<SavedBinding> {
        self.possibly_invalid
    }

    /// Whether the guard keeps the saved binding when it goes.
    pub closed spec fn spec_keep(self) -> bool {
        self.keep
    }

    /// The call the guard makes when it goes.
    pub open spec fn spec_restore(self) -> Option<(usize, SavedBinding)> {
        spec_restore_call(self.spec_display(), self.spec_old_display(), self.spec_saved(), self.spec_keep())
    }

    /// The guard over `eglMakeCurrent` on `display`, which returned `made_current`
    /// (`error_code` is what `eglGetError` reported then). `old_display` and `old` are the
    /// display and binding current before; without a current display nothing is saved.
    pub fn new(
        display: usize,
        old_display: usize,
        old: SavedBinding,
        made_current: bool,
        error_code: u32,
    ) -> (r: Result<Self, Error>)
        ensures
            r is Ok <==> made_current,
            r matches Ok(g) ==> g.spec_display() == display && g.spec_old_display() == old_display
                && !g.spec_keep() && g.spec_saved() == (if old_display == 0 {
                None
            } else {
                Some(old)
            }),
            r matches Err(e) ==> e.kind == ErrorKind::Misc && e.raw_code == Some(error_code as i64),
    {
        if !made_current {
            return Err(Error::new(Some(error_code as i64), Some(make_current_message(error_code)), ErrorKind::Misc));
        }
        let possibly_invalid = if old_display == 0 {
            None
        } else {
            Some(old)
        };
        Ok(MakeCurrentGuard { display, old_display, possibly_invalid, keep: false })
    }

    /// A guard that makes nothing current and keeps the binding current now: it restores
    /// nothing unless that binding becomes invalid.
    pub fn new_keep(display: usize, old_display: usize, old: SavedBinding) -> (g: Self)
        ensures
            g.spec_display() == display,
            g.spec_old_display() == old_display,
            g.spec_keep(),
            g.spec_saved() == (if old_display == 0 {
                None
            } else {
                Some(old)
            }),
    {
        let possibly_invalid = if old_display == 0 {
            None
        } else {
            Some(old)
        };
        MakeCurrentGuard { display, old_display, possibly_invalid, keep: true }
    }

    /// Forget the saved binding where it shares a surface or the context with a binding about
    /// to be destroyed.
    pub fn if_any_same_then_invalidate(&mut self, draw: usize, read: usize, context: usize)
        ensures
            final(self).spec_display() == old(self).spec_display(),
            final(self).spec_old_display() == old(self).spec_old_display(),
            final(self).spec_keep() == old(self).spec_keep(),
            final(self).spec_saved() == (match old(self).spec_saved() {
                Some(s) => if spec_shares_any(s, draw, read, context) {
                    None
                } else {
                    Some(s)
                },
                None => None,
            }),
    {
        match self.possibly_invalid {
            Some(s) => {
                if (s.draw == draw && draw != 0) || (s.read == read && read != 0) || (s.context
                    == context && s.context != 0) {
                    self.invalidate();
                }
            },
            None => {},
        }
    }

    /// Forget the saved binding.
    pub fn invalidate(&mut self)
        ensures
            final(self).spec_display() == old(self).spec_display(),
            final(self).spec_old_display() == old(self).spec_old_display(),
            final(self).spec_keep() == old(self).spec_keep(),
            final(self).spec_saved() is None,
    {
        self.possibly_invalid = None;
    }

    /// The `eglMakeCurrent` call to make when the guard goes: the display and the binding,
    /// `None` when no call is to be made.
    pub fn restore_call(&self) -> (r: Option<(usize, SavedBinding)>)
        ensures
            r == self.spec_restore(),
    {
        let display = if self.old_display == 0 {
            self.display
        } else {
            self.old_display
        };
        match self.possibly_invalid {
            Some(saved) => if self.keep {
                None
            } else {
                Some((display, saved))
            },
            None => Some((display, SavedBinding { draw: 0, read: 0, context: 0 })),
        }
    }
}

/// A guard told that a binding is about to be destroyed never makes current, when it goes, a
/// surface or context of that binding: it restores no binding at all.
pub proof fn lemma_invalidated_guard_restores_nothing(
    before: MakeCurrentGuard,
    after: MakeCurrentGuard,
    draw: usize,
    read: usize,
    context: usize,
)
    requires
        after.spec_display() == before.spec_display(),
        after.spec_old_display() == before.spec_old_display(),
        after.spec_keep() == before.spec_keep(),
        after.spec_saved() == (match before.spec_saved() {
            Some(s) => if spec_shares_any(s, draw, read, context) {
                None
            } else {
                Some(s)
            },
            None => None,
        }),
        before.spec_saved() matches Some(s) && spec_shares_any(s, draw, read, context),
    ensures
        after.spec_restore() matches Some((_, b)) && b == (SavedBinding { draw: 0, read: 0, context: 0 }),
{
}

} // verus!
