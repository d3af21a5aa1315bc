//! The guard that makes a GLX context current for a while and gives back the drawable and
//! context that were current before, unless they were declared invalid meanwhile.
use vstd::prelude::*;

verus! {

/// A guard over a GLX binding made current.
#[derive(Debug, Clone, Copy, PartialEq, Eq)]
pub struct GlxMakeCurrentGuard {
    old_display: usize,
    display: usize,
    possibly_invalid: Option<(u64, usize)>,
}

/// The message of a failed `glXMakeCurrent`.
#[verifier::external_body]
fn make_current_message(x_error: &str) -> String {
    format!("`glXMakeCurrent` failed: {:?}", x_error)
}

impl GlxMakeCurrentGuard {
    /// The display current when the guard was made.
    pub closed spec fn spec_old_display(self) -> usize {
        self.old_display
    }

    /// The display the guard made its binding current on.
    pub closed spec fn spec_display(self) -> usize {
        self.display
    }

    /// The drawable and context saved, while they are valid.
    pub closed spec fn spec_saved(self) -> Option<(u64, usize)> {
        self.possibly_invalid
    }

    /// The guard over `glXMakeCurrent` on `display`, which returned `made_current`; the display,
    /// drawable and context current before are saved. `x_error` describes a failure.
    pub fn new(
        display: usize,
        old_display: usize,
        old_drawable: u64,
        old_context: usize,
        made_current: bool,
        x_error: &str,
    ) -> (r: Result<Self, String>)
        ensures
            r is Ok <==> made_current,
            r matches Ok(g) ==> g.spec_display() == display && g.spec_old_display() == old_display
                && g.spec_saved() == Some((old_drawable, old_context)),
    {
        if !made_current {
            return Err(make_current_message(x_error));
        }
        Ok(
            GlxMakeCurrentGuard {
                old_display,
                display,
                possibly_invalid: Some((old_drawable, old_context)),
            },
        )
    }

    /// The context that was current before, while it is valid.
    pub fn old_context(&self) -> (r: Option<usize>)
        ensures
            r == (match self.spec_saved() {
                Some((_, c)) => Some(c),
                None => None,
            }),
    {
        match self.possibly_invalid {
            Some((_, c)) => Some(c),
            None => None,
        }
    }

    /// Forget the saved drawable and context.
    pub fn invalidate(&mut self)
        ensures
            final(self).spec_display() == old(self).spec_display(),
            final(self).spec_old_display() == old(self).spec_old_display(),
            final(self).spec_saved() is None,
    {
        self.possibly_invalid = None;
    }

    /// The `glXMakeCurrent` call the guard makes when it goes: on the display current before
    /// (its own display where there was none), the saved drawable and context, or none once
    /// they were invalidated.
    pub fn restore_call(&self) -> (r: (usize, u64, usize))
        ensures
            r.0 == (if self.spec_old_display() == 0 {
                self.spec_display()
            } else {
                self.spec_old_display()
            }),
            self.spec_saved() matches Some((d, c)) ==> r.1 == d && r.2 == c,
            self.spec_saved() is None ==> r.1 == 0 && r.2 == 0,
    {
        let (drawable, context) = match self.possibly_invalid {
            Some((d, c)) => (d, c),
            None => (0, 0),
        };
        let display = if self.old_display == 0 {
            self.display
        } else {
            self.old_display
        };
        (display, drawable, context)
    }
}

} // verus!
