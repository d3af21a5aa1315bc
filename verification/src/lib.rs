//! Verified decision logic of a cross-platform OpenGL context provider: config templates and
//! attribute lists, context attribute lists, display and extension handling, error mapping and
//! the small state machines that sit between the platform calls.
pub mod error;
pub mod context;
pub mod config;
pub mod extensions;
pub mod attributes;
pub mod legacy;
pub mod egl;
pub mod ios;
pub mod osmesa;
pub mod surface;
pub mod cgl;
pub mod unix;
pub mod wgl;
pub mod glx;
pub mod android;
pub mod caca;
pub mod loader;
pub mod window;
