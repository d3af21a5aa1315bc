# glutin

The decision logic of an OpenGL context and surface library, written in Verus: which
attribute lists go to EGL, GLX, WGL and CGL, how configs are chosen and described, how
swap intervals, damage rectangles and sync timeouts are computed, and how the errors of
each platform are classified. Verus proves every function in `src/` against its contract;
the few calls into `std` that Verus cannot read sit behind small wrappers whose doc
comments say what is assumed of them, and where such a call decides a result (the `Debug`
text of a loading error, the wording of an error message) the contract leaves it open.

Layout:

- `src/` — the verified library, one module per platform (`egl`, `glx`, `wgl`, `cgl`,
  `ios`, `osmesa`, `android`, `caca`) beside the shared types (`config`, `context`,
  `surface`, `error`, `extensions`).
- `tests/` — tests run against the compiled library.
- `app/` — the plain Rust around it: loading the platform libraries with `libloading`
  and turning `raw-window-handle` handles into the library's own handle types.
