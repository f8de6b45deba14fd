use vstd::prelude::*;
use crate::api::{Api, PixelFormat};
use super::egl::EglContext;

verus! {

/// A GLX rendering context: the address of its `GLXContext` object.
#[derive(Clone, Copy, Debug, PartialEq, Eq, Structural)]
pub struct GlxContext {
    pub handle: usize,
}

/// An X11 context reaches OpenGL through GLX or through EGL.
#[derive(Clone, Copy, Debug, PartialEq, Eq, Structural)]
pub enum X11Context {
    Glx(GlxContext),
    Egl(EglContext),
}

/// A context created on an X11 display.
#[derive(Clone, Copy, Debug, PartialEq, Eq)]
pub struct Context {
    pub context: X11Context,
    pub api: Api,
    pub pixel_format: PixelFormat,
}

} // verus!
