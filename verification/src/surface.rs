use vstd::prelude::*;
use crate::api::ContextError;
use crate::config::Config;
use crate::dpi::{PhysicalSize, Rect};
use crate::platform_impl;
use crate::platform_impl::{damage_of, ContextType, CurrentBindings, Driver};

verus! {

/// The kinds of surface a configuration can draw to.
#[derive(PartialEq, Eq, Copy, Clone, Debug, Structural)]
pub enum SurfaceType {
    Window,
    PBuffer,
    Pixmap,
}

/// Ties a surface marker type to the kind of surface it stands for.
pub trait SurfaceTypeTrait {
    spec fn spec_surface_type() -> SurfaceType;

    fn surface_type() -> (r: SurfaceType)
        ensures
            r == Self::spec_surface_type(),
    ;
}

/// Marker of surfaces that are windows.
#[derive(Copy, Clone, Debug)]
pub struct Window;

/// Marker of off-screen pixel buffer surfaces.
#[derive(Copy, Clone, Debug)]
pub struct PBuffer;

/// Marker of surfaces backed by a native pixmap.
#[derive(Copy, Clone, Debug)]
pub struct Pixmap;

impl SurfaceTypeTrait for Window {
    open spec fn spec_surface_type() -> SurfaceType {
        SurfaceType::Window
    }

    fn surface_type() -> (r: SurfaceType) {
        SurfaceType::Window
    }
}

impl SurfaceTypeTrait for PBuffer {
    open spec fn spec_surface_type() -> SurfaceType {
        SurfaceType::PBuffer
    }

    fn surface_type() -> (r: SurfaceType) {
        SurfaceType::PBuffer
    }
}

impl SurfaceTypeTrait for Pixmap {
    open spec fn spec_surface_type() -> SurfaceType {
        SurfaceType::Pixmap
    }

    fn surface_type() -> (r: SurfaceType) {
        SurfaceType::Pixmap
    }
}

/// Each marker type stands for its own kind of surface: no two of them
/// report the same surface type.
pub proof fn surface_types_are_distinct()
    ensures
        Window::spec_surface_type() == SurfaceType::Window,
        PBuffer::spec_surface_type() == SurfaceType::PBuffer,
        Pixmap::spec_surface_type() == SurfaceType::Pixmap,
        Window::spec_surface_type() != PBuffer::spec_surface_type(),
        Window::spec_surface_type() != Pixmap::spec_surface_type(),
        PBuffer::spec_surface_type() != Pixmap::spec_surface_type(),
{
}

/// A surface of kind `T` (a window, a pixel buffer or a pixmap).
#[derive(Debug)]
pub struct Surface<T: SurfaceTypeTrait>(pub platform_impl::Surface<T>);

impl<T: SurfaceTypeTrait> Surface<T> {
    /// Whether this surface is the draw surface of the calling thread, given
    /// what the drivers report as bound to it.
    #[inline]
    pub fn is_current(&self, bound: &CurrentBindings) -> (r: bool)
        ensures
            r == (bound.bound_to(self.0.driver) == self.0.handle),
    {
        self.0.is_current(bound)
    }

    /// The configuration that this surface was made with.
    #[inline]
    pub fn get_config(&self) -> (r: Config)
        ensures
            r == self.0.config,
    {
        self.0.get_config()
    }

    /// The kind of this surface.
    pub fn surface_type(&self) -> (r: SurfaceType)
        ensures
            r == T::spec_surface_type(),
    {
        T::surface_type()
    }
}

impl Surface<Window> {
    /// The driver whose buffer swap presents this window.
    #[inline]
    pub fn swap_buffers(&self) -> (r: Driver)
        ensures
            r == self.0.driver,
    {
        self.0.swap_buffers()
    }

    /// Swaps the buffers in case of double or triple buffering using specified
    /// damage rects: gives the damage array that the driver takes, when the
    /// driver takes one (only EGL does).
    ///
    /// You should call this function every time you have finished rendering, or
    /// the image may not be displayed on the screen.
    ///
    /// **Warning**: if you enabled vsync, the swap will block until the
    /// next time the screen is refreshed. However drivers can choose to
    /// override your vsync settings, which means that you can't know in
    /// advance whether the swap will block or not.
    pub fn swap_buffers_with_damage(&self, rects: &[Rect]) -> (r: Result<Vec<i32>, ContextError>)
        ensures
            r is Ok <==> self.0.driver == Driver::Egl,
            r matches Ok(d) ==> d@ == damage_of(rects@),
            r matches Err(e) ==> e is FunctionUnavailable,
    {
        self.0.swap_buffers_with_damage(rects)
    }

    /// The resize of the native surface that a new window size asks for:
    /// on Wayland the EGL window follows the window's size, on X11 nothing is
    /// to be done.
    #[inline]
    pub fn update_after_resize(&self, size: PhysicalSize) -> (r: Option<PhysicalSize>)
        ensures
            r == (if self.0.backend == ContextType::Wayland {
                Some(size)
            } else {
                None
            }),
    {
        self.0.update_after_resize(size)
    }
}

} // verus!
