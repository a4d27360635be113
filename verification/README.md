# lwltk

The core of a lightweight widget toolkit, verified with Verus: window containers with reusable
window indices and parent-child relations between windows, linear layouts of widgets with
weights, the two-widget layout of a toplevel window, title bars, radios, and focus navigation
over widget trees.

## Layout

- `src/` is the verified library. Widgets and windows are traits (`Widget`, `Window`,
  `ToplevelWidget`, `Theme`) whose observers are specification functions; the layouts and the
  containers are generic over them, and their contracts are stated over those specification
  functions.
  - `window_container.rs`, `free_indices.rs`: window indices, with the free ones kept as sorted
    disjoint ranges; a new window gets the least index that no window has.
  - `linear_layout_widgets.rs`, `two_window_widgets.rs`, `utils.rs`: sizing and positioning,
    with the passes of the sizing stated as specification functions.
  - `window.rs`: focus navigation, stated as a depth-first search over the widget tree.
  - `toplevel_window.rs`, `title_bar.rs`, `title_button.rs`, `radio.rs`, `window_context.rs`.
- `tests/` runs the library with test widgets, windows and a test theme.
- `app/` holds the hit testing of pointer positions and the window context with the current
  pointer position, as those positions are floating-point positions.

Coordinates are `i32` and their sums and differences wrap around on overflow.
