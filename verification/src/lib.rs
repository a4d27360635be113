//! A toolkit core: window containers with reusable window indices, linear layouts of widgets,
//! and focus navigation over widget trees.
pub mod types;
pub mod free_indices;
pub mod widget;
pub mod window;
pub mod window_container;
pub mod utils;
pub mod linear_layout_widgets;
pub mod two_window_widgets;
pub mod child_index_set;
pub mod theme;
pub mod radio_group;
pub mod widget_sizes;
pub mod radio;
pub mod title_button;
pub mod title_bar;
pub mod toplevel_window;
pub mod window_context;
