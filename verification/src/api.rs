use vstd::prelude::*;

verus! {

/// All APIs related to OpenGL that a context can expose.
#[derive(Clone, Copy, Debug, PartialEq, Eq, Structural)]
pub enum Api {
    /// The classical OpenGL, available on Windows, Unix operating systems and OS/X.
    OpenGl,
    /// OpenGL embedded system, available on mobile devices.
    OpenGlEs,
    /// OpenGL for the web.
    WebGl,
}

/// Describes the format of the pixels of a context or surface.
#[derive(Clone, Copy, Debug, PartialEq, Eq)]
pub struct PixelFormat {
    pub hardware_accelerated: bool,
    /// The number of color bits, alpha excluded.
    pub color_bits: u8,
    pub alpha_bits: u8,
    pub depth_bits: u8,
    pub stencil_bits: u8,
    pub stereoscopy: bool,
    pub double_buffer: bool,
    /// `None` when multisampling is off, else the number of samples.
    pub multisampling: Option<u16>,
    pub srgb: bool,
}

/// An error that can happen while using a context.
#[derive(Debug)]
pub enum ContextError {
    /// The driver reported an error, with its description.
    OsError(String),
    /// The context was lost, and every object in it with it.
    ContextLost,
    /// The requested function is not available with this driver.
    FunctionUnavailable,
}

/// An error that can happen while creating a context.
#[derive(Debug)]
pub enum CreationError {
    OsError(String),
    NotSupported(String),
    RobustnessNotSupported,
    OpenGlVersionNotSupported,
    NoAvailablePixelFormat,
    PlatformSpecific(String),
}

} // verus!
