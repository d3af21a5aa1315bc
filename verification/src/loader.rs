//! Loading of the platform libraries: the file names tried for each, in order, and which of the
//! tries is taken.
use vstd::prelude::*;

verus! {

/// The platform libraries loaded at run time.
#[derive(Debug, Clone, Copy, PartialEq, Eq, Structural)]
pub enum PlatformLibrary {
    /// The EGL library.
    Egl,
    /// The GLX library (libGL).
    Glx,
}

/// The file names a library is looked for under, in order.
pub fn library_paths(library: PlatformLibrary, windows: bool) -> (r: Vec<&'static str>)
    ensures
        r@.len() == 2,
        library is Egl && windows ==> r@[0]@ == "libEGL.dll"@ && r@[1]@ == "atioglxx.dll"@,
        library is Egl && !windows ==> r@[0]@ == "libEGL.so.1"@ && r@[1]@ == "libEGL.so"@,
        library is Glx ==> r@[0]@ == "libGL.so.1"@ && r@[1]@ == "libGL.so"@,
{
    let mut r: Vec<&'static str> = Vec::new();
    match library {
        PlatformLibrary::Egl => {
            if windows {
                r.push("libEGL.dll");
                r.push("atioglxx.dll");
            } else {
                r.push("libEGL.so.1");
                r.push("libEGL.so");
            }
        },
        PlatformLibrary::Glx => {
            r.push("libGL.so.1");
            r.push("libGL.so");
        },
    }
    r
}

/// The first path that loaded, by the outcome of each try in order; `None` when none did.
pub fn first_loaded(loaded: &Vec<bool>) -> (r: Option<usize>)
    ensures
        r matches Some(i) ==> i < loaded@.len() && loaded@[i as int] && forall|j: int|
            0 <= j < i ==> !loaded@[j],
        r is None ==> forall|j: int| 0 <= j < loaded@.len() ==> !loaded@[j],
{
    let n = loaded.len();
    for i in 0..n
        invariant
            n == loaded@.len(),
            forall|j: int| 0 <= j < i ==> !loaded@[j],
    {
        if loaded[i] {
            return Some(i);
        }
    }
    None
}

} // verus!
