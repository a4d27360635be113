//! The theme: the styles that the sizes of the widgets and the windows depend on.
use vstd::prelude::*;
use crate::types::{Edges, Size};

verus! {

/// A theme.
///
/// A theme gives the edges and the sizes of the styled parts, and lays out the texts in its
/// fonts. The methods are observers: each one returns the value of its specification function.
pub trait Theme {
    closed spec fn spec_radio_margin_edges(&self) -> Edges<i32> {
        arbitrary()
    }

    closed spec fn spec_radio_padding_edges(&self) -> Edges<i32> {
        arbitrary()
    }

    closed spec fn spec_radio_text_size(&self, text: Seq<char>, ellipsize_count: Option<usize>, is_trimmed: bool, area_size: Size<Option<i32>>) -> Size<i32> {
        arbitrary()
    }

    closed spec fn spec_title_button_margin_edges(&self) -> Edges<i32> {
        arbitrary()
    }

    closed spec fn spec_title_button_padding_edges(&self) -> Edges<i32> {
        arbitrary()
    }

    closed spec fn spec_title_button_icon_size(&self) -> Size<i32> {
        arbitrary()
    }

    closed spec fn spec_toplevel_window_edges(&self) -> Edges<i32> {
        arbitrary()
    }

    fn radio_margin_edges(&self) -> (r: Edges<i32>)
        ensures
            r == self.spec_radio_margin_edges(),
    ;

    fn radio_padding_edges(&self) -> (r: Edges<i32>)
        ensures
            r == self.spec_radio_padding_edges(),
    ;

    /// Lays out the text of a radio in the radio font for the area size and returns the width
    /// of its widest line and the height of all its lines.
    fn radio_text_size(&self, text: &str, ellipsize_count: Option<usize>, is_trimmed: bool, area_size: Size<Option<i32>>) -> (r: Size<i32>)
        ensures
            r == self.spec_radio_text_size(text@, ellipsize_count, is_trimmed, area_size),
    ;

    fn title_button_margin_edges(&self) -> (r: Edges<i32>)
        ensures
            r == self.spec_title_button_margin_edges(),
    ;

    fn title_button_padding_edges(&self) -> (r: Edges<i32>)
        ensures
            r == self.spec_title_button_padding_edges(),
    ;

    fn title_button_icon_size(&self) -> (r: Size<i32>)
        ensures
            r == self.spec_title_button_icon_size(),
    ;

    fn toplevel_window_edges(&self) -> (r: Edges<i32>)
        ensures
            r == self.spec_toplevel_window_edges(),
    ;
}

} // verus!
