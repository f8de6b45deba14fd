use glutin::platform_impl::egl::EglContext;
use glutin::platform_impl::osmesa::OsMesaContext;
use glutin::platform_impl::x11::{GlxContext, X11Context};
use glutin::platform_impl::{
    wayland, x11, Context, ContextType, CurrentBindings, Driver, PlatformAttributes, RawHandle,
};
use glutin::dpi::PhysicalSize;
use glutin::{Api, CreationError, PixelFormat};

fn format() -> PixelFormat {
    PixelFormat {
        hardware_accelerated: true,
        color_bits: 24,
        alpha_bits: 8,
        depth_bits: 24,
        stencil_bits: 8,
        stereoscopy: false,
        double_buffer: true,
        multisampling: Some(4),
        srgb: true,
    }
}

fn glx(handle: usize) -> Context {
    Context::X11(x11::Context {
        context: X11Context::Glx(GlxContext { handle }),
        api: Api::OpenGl,
        pixel_format: format(),
    })
}

fn x11_egl(handle: usize, display: usize) -> Context {
    Context::X11(x11::Context {
        context: X11Context::Egl(EglContext { handle, display }),
        api: Api::OpenGlEs,
        pixel_format: format(),
    })
}

fn wl(handle: usize, display: usize) -> Context {
    Context::Wayland(wayland::Context {
        context: EglContext { handle, display },
        api: Api::OpenGlEs,
        pixel_format: format(),
    })
}

fn osmesa(handle: usize) -> Context {
    Context::OsMesa(OsMesaContext { handle, api: Api::OpenGl })
}

fn message(r: Result<(), CreationError>) -> String {
    match r {
        Err(CreationError::PlatformSpecific(m)) => m,
        other => panic!("unexpected result {:?}", other),
    }
}

#[test]
fn no_sharing_is_always_compatible() {
    for ct in [ContextType::X11, ContextType::Wayland, ContextType::OsMesa] {
        assert!(Context::is_compatible(&None, ct).is_ok());
    }
}

#[test]
fn same_backend_sharing_is_compatible() {
    let g = glx(1);
    let w = wl(2, 3);
    let o = osmesa(4);
    assert!(Context::is_compatible(&Some(&g), ContextType::X11).is_ok());
    assert!(Context::is_compatible(&Some(&w), ContextType::Wayland).is_ok());
    assert!(Context::is_compatible(&Some(&o), ContextType::OsMesa).is_ok());
}

#[test]
fn other_backend_sharing_is_refused_with_its_message() {
    let g = glx(1);
    let w = wl(2, 3);
    let o = osmesa(4);
    assert_eq!(
        message(Context::is_compatible(&Some(&w), ContextType::OsMesa)),
        "Cannot share an OSMesa context with a non-OSMesa context"
    );
    assert_eq!(
        message(Context::is_compatible(&Some(&g), ContextType::OsMesa)),
        "Cannot share an OSMesa context with a non-OSMesa context"
    );
    assert_eq!(
        message(Context::is_compatible(&Some(&w), ContextType::X11)),
        "Cannot share an X11 context with a non-X11 context"
    );
    assert_eq!(
        message(Context::is_compatible(&Some(&o), ContextType::X11)),
        "Cannot share an X11 context with a non-X11 context"
    );
    assert_eq!(
        message(Context::is_compatible(&Some(&g), ContextType::Wayland)),
        "Cannot share a Wayland context with a non-Wayland context"
    );
    assert_eq!(
        message(Context::is_compatible(&Some(&o), ContextType::Wayland)),
        "Cannot share a Wayland context with a non-Wayland context"
    );
}

#[test]
fn backend_follows_the_event_loop() {
    assert_eq!(Context::select_backend(true, &None).unwrap(), ContextType::Wayland);
    assert_eq!(Context::select_backend(false, &None).unwrap(), ContextType::X11);
    let g = x11_egl(1, 2);
    let w = wl(3, 4);
    assert_eq!(Context::select_backend(false, &Some(&g)).unwrap(), ContextType::X11);
    assert_eq!(Context::select_backend(true, &Some(&w)).unwrap(), ContextType::Wayland);
    match Context::select_backend(true, &Some(&g)) {
        Err(CreationError::PlatformSpecific(m)) => {
            assert_eq!(m, "Cannot share a Wayland context with a non-Wayland context")
        }
        other => panic!("unexpected result {:?}", other),
    }
    match Context::select_backend(false, &Some(&w)) {
        Err(CreationError::PlatformSpecific(m)) => {
            assert_eq!(m, "Cannot share an X11 context with a non-X11 context")
        }
        other => panic!("unexpected result {:?}", other),
    }
}

#[test]
fn sharing_projections_give_the_inner_context() {
    let w = wl(3, 4);
    let g = glx(7);
    assert_eq!(Context::wayland_sharing(&Some(&w)).unwrap().context.handle, 3);
    assert!(Context::wayland_sharing(&None).is_none());
    match Context::x11_sharing(&Some(&g)).unwrap().context {
        X11Context::Glx(c) => assert_eq!(c.handle, 7),
        X11Context::Egl(_) => panic!("expected a GLX context"),
    }
    assert!(Context::x11_sharing(&None).is_none());
}

#[test]
fn driver_and_type_of_each_backend() {
    assert_eq!(glx(1).driver(), Driver::Glx);
    assert_eq!(x11_egl(1, 2).driver(), Driver::Egl);
    assert_eq!(wl(1, 2).driver(), Driver::Egl);
    assert_eq!(osmesa(1).driver(), Driver::OsMesa);
    assert_eq!(glx(1).get_type(), ContextType::X11);
    assert_eq!(wl(1, 2).get_type(), ContextType::Wayland);
    assert_eq!(osmesa(1).get_type(), ContextType::OsMesa);
}

#[test]
fn raw_handles() {
    assert_eq!(glx(11).raw_handle(), RawHandle::Glx(11));
    assert_eq!(x11_egl(12, 2).raw_handle(), RawHandle::Egl(12));
    assert_eq!(wl(13, 2).raw_handle(), RawHandle::Egl(13));
    assert_eq!(osmesa(14).raw_handle(), RawHandle::Egl(14));
}

#[test]
fn egl_displays() {
    assert_eq!(glx(1).get_egl_display(), None);
    assert_eq!(x11_egl(1, 20).get_egl_display(), Some(20));
    assert_eq!(wl(1, 30).get_egl_display(), Some(30));
    assert_eq!(osmesa(1).get_egl_display(), None);
}

#[test]
fn current_follows_the_drivers_binding() {
    let bound = CurrentBindings { glx: 5, egl: 6, osmesa: 7 };
    assert!(glx(5).is_current(&bound));
    assert!(!glx(6).is_current(&bound));
    assert!(x11_egl(6, 1).is_current(&bound));
    assert!(wl(6, 1).is_current(&bound));
    assert!(!wl(5, 1).is_current(&bound));
    assert!(osmesa(7).is_current(&bound));
    assert!(!osmesa(5).is_current(&bound));
}

#[test]
fn nothing_bound_nothing_current() {
    let bound = CurrentBindings { glx: 0, egl: 0, osmesa: 0 };
    for c in [glx(1), x11_egl(2, 3), wl(4, 5), osmesa(6)] {
        assert!(!c.is_current(&bound));
    }
}

#[test]
fn one_current_context_per_driver() {
    let bound = CurrentBindings { glx: 0, egl: 8, osmesa: 0 };
    let a = wl(8, 1);
    let b = x11_egl(9, 1);
    assert!(!(a.is_current(&bound) && b.is_current(&bound)));
}

#[test]
fn api_and_pixel_format() {
    assert_eq!(glx(1).get_api(), Api::OpenGl);
    assert_eq!(wl(1, 2).get_api(), Api::OpenGlEs);
    assert_eq!(osmesa(1).get_api(), Api::OpenGl);
    assert_eq!(glx(1).get_pixel_format(), format());
    assert_eq!(wl(1, 2).get_pixel_format(), format());
}

#[test]
fn resize_only_touches_wayland() {
    assert_eq!(glx(1).resize(640, 480), None);
    assert_eq!(x11_egl(1, 2).resize(640, 480), None);
    assert_eq!(wl(1, 2).resize(640, 480), Some(PhysicalSize { width: 640, height: 480 }));
}

#[test]
fn proc_address_and_swap_go_to_the_context_driver() {
    let q = glx(1).get_proc_address("glClear");
    assert_eq!(q.driver, Driver::Glx);
    assert_eq!(q.name, "glClear");
    let q = osmesa(1).get_proc_address("glViewport");
    assert_eq!(q.driver, Driver::OsMesa);
    assert_eq!(q.name, "glViewport");
    assert_eq!(glx(1).swap_buffers(), Driver::Glx);
    assert_eq!(x11_egl(1, 2).swap_buffers(), Driver::Egl);
    assert_eq!(wl(1, 2).swap_buffers(), Driver::Egl);
}

#[test]
fn platform_attributes_default() {
    assert_eq!(PlatformAttributes::default().x11_visual_xid, None);
}
