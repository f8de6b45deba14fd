//! Context dispatch on Unix-like platforms: X11 (GLX or EGL), Wayland (EGL)
//! and OSMesa.

pub mod egl;
pub mod osmesa;
pub mod wayland;
pub mod x11;

use vstd::prelude::*;
use std::marker::PhantomData;
use crate::api::{Api, ContextError, CreationError, PixelFormat};
use crate::config::Config;
use crate::dpi::{PhysicalSize, Rect};
use self::x11::{GlxContext, X11Context};

verus! {

/// The driver interface through which a context reaches OpenGL.
#[derive(Clone, Copy, Debug, PartialEq, Eq, Structural)]
pub enum Driver {
    Glx,
    Egl,
    OsMesa,
}

/// Context handles available on Unix-like platforms: the address of the
/// driver's context object.
#[derive(Clone, Copy, Debug, PartialEq, Eq, Structural)]
pub enum RawHandle {
    /// Context handle for a glx context.
    Glx(usize),
    /// Context handle for a egl context.
    Egl(usize),
}

/// The windowing backend of a context.
#[derive(Clone, Copy, Debug, PartialEq, Eq, Structural)]
pub enum ContextType {
    X11,
    Wayland,
    OsMesa,
}

/// What each driver reports as bound to the calling thread: the address of
/// its current object, 0 when none is.
#[derive(Clone, Copy, Debug, PartialEq, Eq, Structural)]
pub struct CurrentBindings {
    pub glx: usize,
    pub egl: usize,
    pub osmesa: usize,
}

impl CurrentBindings {
    pub open spec fn bound_to(self, driver: Driver) -> usize {
        match driver {
            Driver::Glx => self.glx,
            Driver::Egl => self.egl,
            Driver::OsMesa => self.osmesa,
        }
    }
}

/// An OpenGL context of one of the Unix backends.
#[derive(Debug)]
pub enum Context {
    X11(x11::Context),
    Wayland(wayland::Context),
    OsMesa(osmesa::OsMesaContext),
}

/// The message of the error that refuses to share a context of another
/// backend with a new context of backend `ct`.
pub open spec fn incompatible_message(ct: ContextType) -> Seq<char> {
    match ct {
        ContextType::OsMesa => "Cannot share an OSMesa context with a non-OSMesa context"@,
        ContextType::X11 => "Cannot share an X11 context with a non-X11 context"@,
        ContextType::Wayland => "Cannot share a Wayland context with a non-Wayland context"@,
    }
}

/// A new context of backend `ct` may share objects with `sharing`: there is
/// none, or it belongs to the same backend.
pub open spec fn compatible(sharing: Option<&Context>, ct: ContextType) -> bool {
    match sharing {
        None => true,
        Some(c) => c.context_type() == ct,
    }
}

/// The backend on which a new context is created: Wayland when the event
/// loop runs on Wayland, X11 otherwise.
pub open spec fn creation_backend(is_wayland: bool) -> ContextType {
    if is_wayland {
        ContextType::Wayland
    } else {
        ContextType::X11
    }
}

impl Context {
    pub open spec fn context_type(&self) -> ContextType {
        match *self {
            Context::X11(_) => ContextType::X11,
            Context::Wayland(_) => ContextType::Wayland,
            Context::OsMesa(_) => ContextType::OsMesa,
        }
    }

    /// The driver that serves this context.
    pub open spec fn spec_driver(&self) -> Driver {
        match *self {
            Context::X11(c) => match c.context {
                X11Context::Glx(_) => Driver::Glx,
                X11Context::Egl(_) => Driver::Egl,
            },
            Context::Wayland(_) => Driver::Egl,
            Context::OsMesa(_) => Driver::OsMesa,
        }
    }

    /// The address of the driver's object for this context.
    pub open spec fn spec_handle(&self) -> usize {
        match *self {
            Context::X11(c) => match c.context {
                X11Context::Glx(g) => g.handle,
                X11Context::Egl(e) => e.handle,
            },
            Context::Wayland(w) => w.context.handle,
            Context::OsMesa(o) => o.handle,
        }
    }

    /// A context that a driver created: its object has an address.
    pub open spec fn wf(&self) -> bool {
        self.spec_handle() != 0
    }

    /// The EGL display of this context, when it is served by EGL.
    pub open spec fn spec_egl_display(&self) -> Option<usize> {
        match *self {
            Context::X11(c) => match c.context {
                X11Context::Glx(_) => None,
                X11Context::Egl(e) => Some(e.display),
            },
            Context::Wayland(w) => Some(w.context.display),
            Context::OsMesa(_) => None,
        }
    }
}

impl Context {
    /// Checks that a new context of backend `ct` may share objects with `c`:
    /// it may when there is no context to share with, or when that context
    /// belongs to the same backend.
    pub fn is_compatible(c: &Option<&Context>, ct: ContextType) -> (r: Result<(), CreationError>)
        ensures
            r is Ok <==> compatible(*c, ct),
            r matches Err(e) ==> (e matches CreationError::PlatformSpecific(msg)
                && msg@ == incompatible_message(ct)),
            c.is_none() ==> r is Ok,
            *c matches Some(x) ==> ((r is Ok) <==> ((x is X11 && ct == ContextType::X11) || (
            x is Wayland && ct == ContextType::Wayland) || (x is OsMesa && ct
                == ContextType::OsMesa))),
    {
        if let Some(c) = *c {
            match ct {
                ContextType::OsMesa => match *c {
                    Context::OsMesa(_) => Ok(()),
                    _ => {
                        let msg = "Cannot share an OSMesa context with a non-OSMesa context";
                        Err(CreationError::PlatformSpecific(msg.to_owned()))
                    },
                },
                ContextType::X11 => match *c {
                    Context::X11(_) => Ok(()),
                    _ => {
                        let msg = "Cannot share an X11 context with a non-X11 context";
                        Err(CreationError::PlatformSpecific(msg.to_owned()))
                    },
                },
                ContextType::Wayland => match *c {
                    Context::Wayland(_) => Ok(()),
                    _ => {
                        let msg = "Cannot share a Wayland context with a non-Wayland context";
                        Err(CreationError::PlatformSpecific(msg.to_owned()))
                    },
                },
            }
        } else {
            Ok(())
        }
    }

    /// Decides on which backend a new context is created, and refuses a
    /// context to share with that belongs to another backend.
    ///
    /// This is the decision that opens the creation of windowed and headless
    /// contexts: Wayland when the event loop runs on Wayland, X11 otherwise.
    pub fn select_backend(is_wayland: bool, sharing: &Option<&Context>) -> (r: Result<
        ContextType,
        CreationError,
    >)
        ensures
            r is Ok <==> compatible(*sharing, creation_backend(is_wayland)),
            r matches Ok(ct) ==> ct == creation_backend(is_wayland),
            r matches Ok(ct) ==> (is_wayland <==> ct == ContextType::Wayland),
            r matches Ok(ct) ==> (!is_wayland <==> ct == ContextType::X11),
            sharing.is_none() ==> r is Ok,
            *sharing matches Some(x) ==> ((r is Ok) <==> ((x is Wayland && is_wayland) || (x is X11
                && !is_wayland))),
            r matches Err(e) ==> (e matches CreationError::PlatformSpecific(msg)
                && msg@ == incompatible_message(creation_backend(is_wayland))),
    {
        let ct = if is_wayland {
            ContextType::Wayland
        } else {
            ContextType::X11
        };
        match Context::is_compatible(sharing, ct) {
            Ok(()) => Ok(ct),
            Err(e) => Err(e),
        }
    }

    /// The Wayland context to share objects with, once the sharing context
    /// was found compatible with a new Wayland context.
    pub fn wayland_sharing<'a>(sharing: &Option<&'a Context>) -> (r: Option<&'a wayland::Context>)
        requires
            compatible(*sharing, ContextType::Wayland),
        ensures
            sharing.is_none() ==> r.is_none(),
            sharing matches Some(c) ==> (*c matches Context::Wayland(w) && r == Some(w)),
    {
        match *sharing {
            Some(Context::Wayland(ctx)) => Some(ctx),
            Some(_) => {
                proof {
                    assert(false);
                }
                None
            },
            None => None,
        }
    }

    /// The X11 context to share objects with, once the sharing context was
    /// found compatible with a new X11 context.
    pub fn x11_sharing<'a>(sharing: &Option<&'a Context>) -> (r: Option<&'a x11::Context>)
        requires
            compatible(*sharing, ContextType::X11),
        ensures
            sharing.is_none() ==> r.is_none(),
            sharing matches Some(c) ==> (*c matches Context::X11(x) && r == Some(x)),
    {
        match *sharing {
            Some(Context::X11(ctx)) => Some(ctx),
            Some(_) => {
                proof {
                    assert(false);
                }
                None
            },
            None => None,
        }
    }

    /// The backend of this context.
    pub fn get_type(&self) -> (r: ContextType)
        ensures
            r == self.context_type(),
            self is X11 <==> r == ContextType::X11,
            self is Wayland <==> r == ContextType::Wayland,
            self is OsMesa <==> r == ContextType::OsMesa,
    {
        match *self {
            Context::X11(_) => ContextType::X11,
            Context::Wayland(_) => ContextType::Wayland,
            Context::OsMesa(_) => ContextType::OsMesa,
        }
    }

    /// The driver that serves this context, and so every call made on it.
    pub fn driver(&self) -> (r: Driver)
        ensures
            r == self.spec_driver(),
    {
        match *self {
            Context::X11(ref ctx) => match ctx.context {
                X11Context::Glx(_) => Driver::Glx,
                X11Context::Egl(_) => Driver::Egl,
            },
            Context::Wayland(_) => Driver::Egl,
            Context::OsMesa(_) => Driver::OsMesa,
        }
    }

    /// The handle of the driver's object for this context. An OSMesa context
    /// is reported as an EGL handle.
    pub fn raw_handle(&self) -> (r: RawHandle)
        ensures
            r == (if self.spec_driver() == Driver::Glx {
                RawHandle::Glx(self.spec_handle())
            } else {
                RawHandle::Egl(self.spec_handle())
            }),
            self matches Context::X11(x) ==> (x.context matches X11Context::Glx(g) ==> r
                == RawHandle::Glx(g.handle)),
            self matches Context::X11(x) ==> (x.context matches X11Context::Egl(e) ==> r
                == RawHandle::Egl(e.handle)),
            self matches Context::Wayland(w) ==> r == RawHandle::Egl(w.context.handle),
            self matches Context::OsMesa(o) ==> r == RawHandle::Egl(o.handle),
    {
        match *self {
            Context::X11(ref ctx) => match ctx.context {
                X11Context::Glx(ref ctx) => RawHandle::Glx(ctx.handle),
                X11Context::Egl(ref ctx) => RawHandle::Egl(ctx.handle),
            },
            Context::Wayland(ref ctx) => RawHandle::Egl(ctx.context.handle),
            Context::OsMesa(ref ctx) => RawHandle::Egl(ctx.handle),
        }
    }

    /// The EGL display of this context: that of an EGL context on X11 or on
    /// Wayland, and none for GLX and OSMesa.
    pub fn get_egl_display(&self) -> (r: Option<usize>)
        ensures
            r == self.spec_egl_display(),
            r is Some <==> self.spec_driver() == Driver::Egl,
            self matches Context::X11(x) ==> (x.context matches X11Context::Egl(e) ==> r == Some(
                e.display)),
            self matches Context::X11(x) ==> (x.context is Glx ==> r is None),
            self matches Context::Wayland(w) ==> r == Some(w.context.display),
            self is OsMesa ==> r is None,
    {
        match *self {
            Context::X11(ref ctx) => match ctx.context {
                X11Context::Egl(ref ctx) => Some(ctx.display),
                _ => None,
            },
            Context::Wayland(ref ctx) => Some(ctx.context.display),
            _ => None,
        }
    }

    /// Whether this context is current on the calling thread, given what
    /// the drivers report as bound to it: the driver that serves this
    /// context must report this context's object.
    pub fn is_current(&self, bound: &CurrentBindings) -> (r: bool)
        ensures
            r == (bound.bound_to(self.spec_driver()) == self.spec_handle()),
            self matches Context::X11(x) ==> (x.context matches X11Context::Glx(g) ==> (r <==> bound.glx
                == g.handle)),
            self matches Context::X11(x) ==> (x.context matches X11Context::Egl(e) ==> (r <==> bound.egl
                == e.handle)),
            self matches Context::Wayland(w) ==> (r <==> bound.egl == w.context.handle),
            self matches Context::OsMesa(o) ==> (r <==> bound.osmesa == o.handle),
    {
        match *self {
            Context::X11(ref ctx) => match ctx.context {
                X11Context::Glx(ref ctx) => bound.glx == ctx.handle,
                X11Context::Egl(ref ctx) => bound.egl == ctx.handle,
            },
            Context::Wayland(ref ctx) => bound.egl == ctx.context.handle,
            Context::OsMesa(ref ctx) => bound.osmesa == ctx.handle,
        }
    }

    /// The API that this context exposes.
    pub fn get_api(&self) -> (r: Api)
        ensures
            r == (match *self {
                Context::X11(c) => c.api,
                Context::Wayland(c) => c.api,
                Context::OsMesa(c) => c.api,
            }),
    {
        match *self {
            Context::X11(ref ctx) => ctx.api,
            Context::Wayland(ref ctx) => ctx.api,
            Context::OsMesa(ref ctx) => ctx.api,
        }
    }

    /// The resize that the new window size `width` x `height` asks of the
    /// context's surface: none on X11, where the server follows the window,
    /// and a resize of the EGL window on Wayland. OSMesa contexts have no
    /// window to follow.
    pub fn resize(&self, width: u32, height: u32) -> (r: Option<PhysicalSize>)
        requires
            self.context_type() != ContextType::OsMesa,
        ensures
            r == (if self.context_type() == ContextType::Wayland {
                Some(PhysicalSize { width, height })
            } else {
                None
            }),
            self is Wayland ==> r == Some(PhysicalSize { width, height }),
            self is X11 ==> r is None,
    {
        match *self {
            Context::X11(_) => None,
            Context::Wayland(_) => Some(PhysicalSize { width, height }),
            Context::OsMesa(_) => {
                proof {
                    assert(false);
                }
                None
            },
        }
    }

    /// Where the address of the OpenGL function `addr` is looked up: in the
    /// loader of the driver that serves this context.
    pub fn get_proc_address<'a>(&self, addr: &'a str) -> (r: SymbolQuery<'a>)
        ensures
            r.driver == self.spec_driver(),
            r.name == addr,
    {
        SymbolQuery { driver: self.driver(), name: addr }
    }

    /// The driver whose buffer swap presents this context's back buffer.
    /// OSMesa renders to memory and has no buffers to swap.
    pub fn swap_buffers(&self) -> (r: Driver)
        requires
            self.context_type() != ContextType::OsMesa,
        ensures
            r == self.spec_driver(),
    {
        match *self {
            Context::X11(ref ctx) => match ctx.context {
                X11Context::Glx(_) => Driver::Glx,
                X11Context::Egl(_) => Driver::Egl,
            },
            Context::Wayland(_) => Driver::Egl,
            Context::OsMesa(_) => {
                proof {
                    assert(false);
                }
                Driver::OsMesa
            },
        }
    }

    /// The pixel format that the context was created with. OSMesa contexts
    /// do not keep one.
    pub fn get_pixel_format(&self) -> (r: PixelFormat)
        requires
            self.context_type() != ContextType::OsMesa,
        ensures
            self matches Context::X11(c) ==> r == c.pixel_format,
            self matches Context::Wayland(c) ==> r == c.pixel_format,
    {
        match *self {
            Context::X11(ref ctx) => ctx.pixel_format,
            Context::Wayland(ref ctx) => ctx.pixel_format,
            Context::OsMesa(_) => {
                proof {
                    assert(false);
                }
                PixelFormat {
                    hardware_accelerated: false,
                    color_bits: 0,
                    alpha_bits: 0,
                    depth_bits: 0,
                    stencil_bits: 0,
                    stereoscopy: false,
                    double_buffer: false,
                    multisampling: None,
                    srgb: false,
                }
            },
        }
    }
}

/// A lookup of an OpenGL function by name in a driver's loader.
#[derive(Clone, Copy, Debug)]
pub struct SymbolQuery<'a> {
    pub driver: Driver,
    pub name: &'a str,
}

/// The damage array that EGL's swap with damage takes: four integers per
/// rectangle, its x, y, width and height, rectangle after rectangle.
pub open spec fn damage_of(rects: Seq<Rect>) -> Seq<i32> {
    Seq::new(
        4 * rects.len(),
        |i: int|
            {
                let r = rects[i / 4];
                if i % 4 == 0 {
                    r.x as i32
                } else if i % 4 == 1 {
                    r.y as i32
                } else if i % 4 == 2 {
                    r.width as i32
                } else {
                    r.height as i32
                }
            },
    )
}

/// Lays out damage rectangles as EGL takes them.
pub fn damage_rects(rects: &[Rect]) -> (r: Vec<i32>)
    ensures
        r@ == damage_of(rects@),
        r@.len() == 4 * rects@.len(),
        forall|i: int|
            0 <= i < rects@.len() ==> {
                &&& #[trigger] r@[4 * i] == rects@[i].x as i32
                &&& r@[4 * i + 1] == rects@[i].y as i32
                &&& r@[4 * i + 2] == rects@[i].width as i32
                &&& r@[4 * i + 3] == rects@[i].height as i32
            },
{
    let mut out: Vec<i32> = Vec::new();
    let n = rects.len();
    let mut k: usize = 0;
    while k < n
        invariant
            n == rects@.len(),
            k <= n,
            out@ == damage_of(rects@.take(k as int)),
        decreases n - k,
    {
        let rect = rects[k];
        out.push(rect.x as i32);
        out.push(rect.y as i32);
        out.push(rect.width as i32);
        out.push(rect.height as i32);
        proof {
            let prev = damage_of(rects@.take(k as int));
            let next = damage_of(rects@.take(k + 1));
            assert forall|i: int| 0 <= i < next.len() implies #[trigger] next[i] == out@[i] by {
                if i < 4 * k {
                    assert(rects@.take(k + 1)[i / 4] == rects@.take(k as int)[i / 4]);
                } else {
                    assert(rects@.take(k + 1)[i / 4] == rect);
                }
            }
            assert(next =~= out@);
        }
        k = k + 1;
    }
    proof {
        assert(rects@.take(n as int) =~= rects@);
        assert forall|i: int| 0 <= i < rects@.len() implies {
            &&& #[trigger] out@[4 * i] == rects@[i].x as i32
            &&& out@[4 * i + 1] == rects@[i].y as i32
            &&& out@[4 * i + 2] == rects@[i].width as i32
            &&& out@[4 * i + 3] == rects@[i].height as i32
        } by {
            damage_layout(rects@, i);
        }
    }
    out
}

/// A drawable surface of one of the Unix backends: the address of the
/// driver's surface object, the driver, and the configuration it was made
/// with.
#[derive(Debug)]
pub struct Surface<T> {
    pub backend: ContextType,
    pub driver: Driver,
    pub handle: usize,
    pub config: Config,
    pub kind: PhantomData<T>,
}

impl<T> Surface<T> {
    /// Whether this surface is the draw surface of the calling thread, given
    /// what the drivers report as bound to it.
    pub fn is_current(&self, bound: &CurrentBindings) -> (r: bool)
        ensures
            r == (bound.bound_to(self.driver) == self.handle),
            self.driver == Driver::Glx ==> (r <==> bound.glx == self.handle),
            self.driver == Driver::Egl ==> (r <==> bound.egl == self.handle),
            self.driver == Driver::OsMesa ==> (r <==> bound.osmesa == self.handle),
    {
        match self.driver {
            Driver::Glx => bound.glx == self.handle,
            Driver::Egl => bound.egl == self.handle,
            Driver::OsMesa => bound.osmesa == self.handle,
        }
    }

    pub fn get_config(&self) -> (r: Config)
        ensures
            r == self.config,
    {
        self.config
    }

    /// The driver whose buffer swap presents this surface.
    pub fn swap_buffers(&self) -> (r: Driver)
        ensures
            r == self.driver,
    {
        self.driver
    }

    /// The damage array for a swap of this surface with damage rectangles
    /// `rects`; only EGL takes damage rectangles.
    pub fn swap_buffers_with_damage(&self, rects: &[Rect]) -> (r: Result<Vec<i32>, ContextError>)
        ensures
            r is Ok <==> self.driver == Driver::Egl,
            r matches Ok(d) ==> d@ == damage_of(rects@),
            r matches Err(e) ==> e is FunctionUnavailable,
    {
        match self.driver {
            Driver::Egl => Ok(damage_rects(rects)),
            _ => Err(ContextError::FunctionUnavailable),
        }
    }

    /// The resize that a new window size asks of this surface: a resize of
    /// the EGL window on Wayland, none on X11.
    pub fn update_after_resize(&self, size: PhysicalSize) -> (r: Option<PhysicalSize>)
        ensures
            r == (if self.backend == ContextType::Wayland {
                Some(size)
            } else {
                None
            }),
    {
        match self.backend {
            ContextType::Wayland => Some(size),
            _ => None,
        }
    }
}

/// Platform-specific attributes of context creation.
#[derive(Debug, Clone)]
pub struct PlatformAttributes {
    /// X11 only: set internally to insure a certain visual xid is used when
    /// choosing the fbconfig.
    pub x11_visual_xid: Option<u64>,
}

impl Default for PlatformAttributes {
    fn default() -> (r: Self)
        ensures
            r.x11_visual_xid is None,
    {
        PlatformAttributes { x11_visual_xid: None }
    }
}

/// A context may always be shared with a new context of its own backend.
pub proof fn sharing_with_own_backend_is_accepted(c: &Context)
    ensures
        compatible(Some(c), c.context_type()),
{
}

/// A context may be shared with new contexts of exactly one backend: its own.
pub proof fn sharing_accepted_by_one_backend_only(c: &Context, ct: ContextType)
    ensures
        compatible(Some(c), ct) <==> ct == c.context_type(),
{
}

/// New contexts are created on X11 or on Wayland, never on OSMesa; so every
/// created context can be resized, swapped and asked for its pixel format.
pub proof fn created_contexts_are_windowed(is_wayland: bool)
    ensures
        creation_backend(is_wayland) != ContextType::OsMesa,
        is_wayland <==> creation_backend(is_wayland) == ContextType::Wayland,
{
}

/// Two contexts served by the same driver, with different driver objects,
/// are never both current on one thread.
pub proof fn at_most_one_current_per_driver(c1: &Context, c2: &Context, bound: CurrentBindings)
    requires
        c1.spec_driver() == c2.spec_driver(),
        c1.spec_handle() != c2.spec_handle(),
    ensures
        !(bound.bound_to(c1.spec_driver()) == c1.spec_handle() && bound.bound_to(
            c2.spec_driver(),
        ) == c2.spec_handle()),
{
}

/// When no driver has anything bound to the thread, no context is current.
pub proof fn nothing_bound_nothing_current(c: &Context)
    requires
        c.wf(),
    ensures
        (CurrentBindings { glx: 0, egl: 0, osmesa: 0 }).bound_to(c.spec_driver()) != c.spec_handle(),
{
}

/// Only contexts that GLX serves have a GLX handle, and exactly the contexts
/// that EGL serves have an EGL display.
pub proof fn handles_follow_the_driver(c: &Context)
    ensures
        c.spec_driver() == Driver::Glx <==> (c.context_type() == ContextType::X11
            && c.spec_egl_display() is None),
        (c.spec_egl_display() is Some) <==> c.spec_driver() == Driver::Egl,
{
}

/// The damage array holds, for the rectangle at position `i`, its x, y,
/// width and height at positions `4 * i` to `4 * i + 3`, each as a 32-bit
/// EGLint: any coordinate up to `i32::MAX` is kept unchanged.
pub proof fn damage_layout(rects: Seq<Rect>, i: int)
    requires
        0 <= i < rects.len(),
    ensures
        damage_of(rects).len() == 4 * rects.len(),
        damage_of(rects)[4 * i] == rects[i].x as i32,
        damage_of(rects)[4 * i + 1] == rects[i].y as i32,
        damage_of(rects)[4 * i + 2] == rects[i].width as i32,
        damage_of(rects)[4 * i + 3] == rects[i].height as i32,
        rects[i].x <= i32::MAX ==> damage_of(rects)[4 * i] as int == rects[i].x as int,
        rects[i].y <= i32::MAX ==> damage_of(rects)[4 * i + 1] as int == rects[i].y as int,
        rects[i].width <= i32::MAX ==> damage_of(rects)[4 * i + 2] as int == rects[i].width as int,
        rects[i].height <= i32::MAX ==> damage_of(rects)[4 * i + 3] as int
            == rects[i].height as int,
{
    assert((4 * i) / 4 == i && (4 * i) % 4 == 0) by (nonlinear_arith)
        requires
            0 <= i,
    ;
    assert((4 * i + 1) / 4 == i && (4 * i + 1) % 4 == 1) by (nonlinear_arith)
        requires
            0 <= i,
    ;
    assert((4 * i + 2) / 4 == i && (4 * i + 2) % 4 == 2) by (nonlinear_arith)
        requires
            0 <= i,
    ;
    assert((4 * i + 3) / 4 == i && (4 * i + 3) % 4 == 3) by (nonlinear_arith)
        requires
            0 <= i,
    ;
    let r = rects[i];
    let (x, y, w, h) = (r.x, r.y, r.width, r.height);
    assert(x <= 0x7fff_ffff ==> x as i32 as int == x as int) by (bit_vector);
    assert(y <= 0x7fff_ffff ==> y as i32 as int == y as int) by (bit_vector);
    assert(w <= 0x7fff_ffff ==> w as i32 as int == w as int) by (bit_vector);
    assert(h <= 0x7fff_ffff ==> h as i32 as int == h as int) by (bit_vector);
}

/// The backend of a context is given by its variant alone, whatever its API,
/// pixel format or handles.
pub proof fn backend_is_the_variant(x: x11::Context, w: wayland::Context, o: osmesa::OsMesaContext)
    ensures
        Context::X11(x).context_type() == ContextType::X11,
        Context::Wayland(w).context_type() == ContextType::Wayland,
        Context::OsMesa(o).context_type() == ContextType::OsMesa,
{
}

/// A new context may share with an existing context exactly when both are of
/// the same backend, and with no context at all on any backend.
pub proof fn sharing_rule(x: x11::Context, w: wayland::Context, o: osmesa::OsMesaContext, ct: ContextType)
    ensures
        compatible(None, ct),
        compatible(Some(&Context::X11(x)), ct) <==> ct == ContextType::X11,
        compatible(Some(&Context::Wayland(w)), ct) <==> ct == ContextType::Wayland,
        compatible(Some(&Context::OsMesa(o)), ct) <==> ct == ContextType::OsMesa,
        compatible(Some(&Context::Wayland(w)), creation_backend(true)),
        compatible(Some(&Context::X11(x)), creation_backend(false)),
        !compatible(Some(&Context::Wayland(w)), creation_backend(false)),
        !compatible(Some(&Context::X11(x)), creation_backend(true)),
        !compatible(Some(&Context::OsMesa(o)), creation_backend(true)),
        !compatible(Some(&Context::OsMesa(o)), creation_backend(false)),
{
}

/// What a driver reports as bound is read from that driver's own field,
/// unchanged.
pub proof fn bindings_are_read_per_driver(bound: CurrentBindings)
    ensures
        bound.bound_to(Driver::Glx) == bound.glx,
        bound.bound_to(Driver::Egl) == bound.egl,
        bound.bound_to(Driver::OsMesa) == bound.osmesa,
{
}

/// The driver object of a context is the handle stored in its backend,
/// unchanged, and the driver is the one that backend goes through.
pub proof fn handle_is_the_backend_object(
    g: GlxContext,
    e: egl::EglContext,
    x: x11::Context,
    w: wayland::Context,
    o: osmesa::OsMesaContext,
)
    requires
        x.context == X11Context::Glx(g) || x.context == X11Context::Egl(e),
    ensures
        x.context == X11Context::Glx(g) ==> Context::X11(x).spec_handle() == g.handle
            && Context::X11(x).spec_driver() == Driver::Glx,
        x.context == X11Context::Egl(e) ==> Context::X11(x).spec_handle() == e.handle
            && Context::X11(x).spec_driver() == Driver::Egl,
        Context::Wayland(w).spec_handle() == w.context.handle,
        Context::Wayland(w).spec_driver() == Driver::Egl,
        Context::OsMesa(o).spec_handle() == o.handle,
        Context::OsMesa(o).spec_driver() == Driver::OsMesa,
{
}

/// A context whose handle is what its driver reports bound is current, and
/// one whose handle differs is not.
pub proof fn current_exactly_when_bound(c: &Context, bound: CurrentBindings)
    ensures
        c matches Context::Wayland(w) ==> ((bound.bound_to(c.spec_driver()) == c.spec_handle())
            <==> bound.egl == w.context.handle),
        c matches Context::OsMesa(o) ==> ((bound.bound_to(c.spec_driver()) == c.spec_handle())
            <==> bound.osmesa == o.handle),
        c matches Context::X11(x) ==> (x.context matches X11Context::Glx(g) ==> ((bound.bound_to(
            c.spec_driver(),
        ) == c.spec_handle()) <==> bound.glx == g.handle)),
        c matches Context::X11(x) ==> (x.context matches X11Context::Egl(e) ==> ((bound.bound_to(
            c.spec_driver(),
        ) == c.spec_handle()) <==> bound.egl == e.handle)),
{
}

/// The EGL display of an EGL-served context is the display of its EGL
/// context, unchanged; GLX and OSMesa contexts have none.
pub proof fn egl_display_is_the_backend_display(
    e: egl::EglContext,
    x: x11::Context,
    w: wayland::Context,
    o: osmesa::OsMesaContext,
)
    ensures
        x.context == X11Context::Egl(e) ==> Context::X11(x).spec_egl_display() == Some(e.display),
        x.context is Glx ==> Context::X11(x).spec_egl_display() is None,
        Context::Wayland(w).spec_egl_display() == Some(w.context.display),
        Context::OsMesa(o).spec_egl_display() is None,
{
}

} // verus!
