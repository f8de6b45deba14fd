# glutin (Unix context dispatch)

OpenGL context and surface management for Unix-like platforms, verified with Verus.

- `src/` holds the decisions: on which backend (X11 or Wayland) a context is
  created, whether a context may be shared with a new one, and which driver
  (GLX, EGL, OSMesa) answers each call on a context or surface, with the data
  it is handed (handles, sizes, damage arrays).
- `app/` performs the driver and windowing calls that the library decides on.
- `tests/` exercises the library on concrete contexts and surfaces.
