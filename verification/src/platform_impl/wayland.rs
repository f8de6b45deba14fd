use vstd::prelude::*;
use crate::api::{Api, PixelFormat};
use super::egl::EglContext;

verus! {

/// A context created on a Wayland display; Wayland contexts always go through EGL.
#[derive(Clone, Copy, Debug, PartialEq, Eq)]
pub struct Context {
    pub context: EglContext,
    pub api: Api,
    pub pixel_format: PixelFormat,
}

} // verus!
