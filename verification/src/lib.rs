//! OpenGL context and surface management for Unix-like platforms.
//!
//! The library keeps the decisions of context creation and dispatch: which
//! windowing backend a new context uses, whether a context may share objects
//! with another one, and which driver (GLX, EGL or OSMesa) answers each call
//! made on a context or a surface. The driver calls themselves happen outside.

pub mod api;
pub mod config;
pub mod dpi;
pub mod platform_impl;
pub mod surface;

pub use api::{Api, ContextError, CreationError, PixelFormat};
pub use config::Config;
