use vstd::prelude::*;

verus! {

/// An EGL rendering context: the address of the `EGLContext` object and of
/// the `EGLDisplay` it was created on.
#[derive(Clone, Copy, Debug, PartialEq, Eq, Structural)]
pub struct EglContext {
    pub handle: usize,
    pub display: usize,
}

} // verus!
