//! A radio: a widget with a text that belongs to a group of radios, of which one is selected.
use std::sync::atomic::AtomicBool;
use std::sync::atomic::Ordering;
use std::sync::Arc;
use vstd::prelude::*;
use crate::radio_group::RadioGroup;
use crate::theme::Theme;
use crate::types::{HAlign, Pos, Rect, Size, TextAlign, VAlign, WidgetState};
use crate::utils::{
    inner_opt_size,
    inner_pos,
    inner_size,
    max_size_for_opt_size,
    outer_size,
    pos_for_h_align_and_v_align,
    size_for_h_align_and_v_align,
};
use crate::widget_sizes::{inner_opt_size_of, leaf_margin_pos_of, leaf_size_of, LeafSizes};
use crate::widget::clone_arc;

verus! {

/// What a radio holds, as plain values.
pub struct RadioView {
    pub state: WidgetState,
    pub margin_bounds: Rect<i32>,
    pub bounds: Rect<i32>,
    pub client_pos: Pos<i32>,
    pub weight: u32,
    pub h_align: HAlign,
    pub v_align: VAlign,
    pub is_enabled: bool,
    pub is_focused: bool,
    pub preferred_size: Size<Option<i32>>,
    pub text: Seq<char>,
    pub text_align: TextAlign,
    pub ellipsize_count: Option<usize>,
    pub is_trimmed: bool,
    pub selection_number: usize,
}

/// A radio.
///
/// A radio is focusable while it is enabled. It raises its change flag when a setting that
/// changes its look changes.
pub struct Radio {
    state: WidgetState,
    margin_bounds: Rect<i32>,
    bounds: Rect<i32>,
    client_pos: Pos<i32>,
    weight: u32,
    h_align: HAlign,
    v_align: VAlign,
    is_enabled: bool,
    is_focused: bool,
    change_flag_arc: Arc<AtomicBool>,
    preferred_size: Size<Option<i32>>,
    text: String,
    text_align: TextAlign,
    ellipsize_count: Option<usize>,
    is_trimmed: bool,
    selection_number: usize,
    group: Arc<RadioGroup>,
}

impl View for Radio {
    type V = RadioView;

    closed spec fn view(&self) -> RadioView {
        RadioView {
            state: self.state,
            margin_bounds: self.margin_bounds,
            bounds: self.bounds,
            client_pos: self.client_pos,
            weight: self.weight,
            h_align: self.h_align,
            v_align: self.v_align,
            is_enabled: self.is_enabled,
            is_focused: self.is_focused,
            preferred_size: self.preferred_size,
            text: self.text@,
            text_align: self.text_align,
            ellipsize_count: self.ellipsize_count,
            is_trimmed: self.is_trimmed,
            selection_number: self.selection_number,
        }
    }
}

/// Raises the change flag.
fn raise_change_flag(flag_arc: &Arc<AtomicBool>) {
    flag_arc.store(true, Ordering::SeqCst);
}

impl Radio {
    /// The change flag that the radio raises when it changes.
    pub closed spec fn spec_change_flag(&self) -> Arc<AtomicBool> {
        self.change_flag_arc
    }

    /// The group of the radio.
    pub closed spec fn spec_group(&self) -> Arc<RadioGroup> {
        self.group
    }

    /// Returns a new radio with the text in a new group.
    pub fn new(s: &str) -> (r: Self)
        ensures
            r@.margin_bounds == (Rect { x: 0i32, y: 0i32, width: 0i32, height: 0i32 }),
            r@.bounds == (Rect { x: 0i32, y: 0i32, width: 0i32, height: 0i32 }),
            r@.client_pos == (Pos { x: 0i32, y: 0i32 }),
            r@.weight == 0,
            r@.h_align == HAlign::Left,
            r@.v_align == VAlign::Top,
            r@.is_enabled,
            !r@.is_focused,
            r@.preferred_size == (Size { width: None::<i32>, height: None::<i32> }),
            r@.text == s@,
            r@.text_align == TextAlign::Left,
            r@.ellipsize_count is None,
            !r@.is_trimmed,
            r@.state == WidgetState::Normal,
    {
        Self::new_with_group(s, Arc::new(RadioGroup::new()))
    }

    /// Returns a new radio with the text in the group; the radio joins the group and takes
    /// the new count of the group as its selection number.
    pub fn new_with_group(s: &str, group: Arc<RadioGroup>) -> (r: Self)
        ensures
            r@.margin_bounds == (Rect { x: 0i32, y: 0i32, width: 0i32, height: 0i32 }),
            r@.bounds == (Rect { x: 0i32, y: 0i32, width: 0i32, height: 0i32 }),
            r@.client_pos == (Pos { x: 0i32, y: 0i32 }),
            r@.weight == 0,
            r@.h_align == HAlign::Left,
            r@.v_align == VAlign::Top,
            r@.is_enabled,
            !r@.is_focused,
            r@.preferred_size == (Size { width: None::<i32>, height: None::<i32> }),
            r@.text == s@,
            r@.text_align == TextAlign::Left,
            r@.ellipsize_count is None,
            !r@.is_trimmed,
            r@.state == WidgetState::Normal,
            r.spec_group() == group,
    {
        let selection_number = group.increase_count();
        Radio {
            state: WidgetState::Normal,
            margin_bounds: Rect::new(0, 0, 0, 0),
            bounds: Rect::new(0, 0, 0, 0),
            client_pos: Pos::new(0, 0),
            weight: 0,
            h_align: HAlign::Left,
            v_align: VAlign::Top,
            is_enabled: true,
            is_focused: false,
            change_flag_arc: Arc::new(AtomicBool::new(false)),
            preferred_size: Size::new(None, None),
            text: s.to_owned(),
            text_align: TextAlign::Left,
            ellipsize_count: None,
            is_trimmed: false,
            selection_number,
            group,
        }
    }

    pub fn set_weight(&mut self, weight: u32)
        ensures
            final(self)@ == (RadioView { weight, ..old(self)@ }),
    {
        let old_weight = self.weight;
        self.weight = weight;
        if old_weight != self.weight {
            raise_change_flag(&self.change_flag_arc);
        }
    }

    pub fn set_h_align(&mut self, align: HAlign)
        ensures
            final(self)@ == (RadioView { h_align: align, ..old(self)@ }),
    {
        let old_h_align = self.h_align;
        self.h_align = align;
        if old_h_align != self.h_align {
            raise_change_flag(&self.change_flag_arc);
        }
    }

    pub fn set_v_align(&mut self, align: VAlign)
        ensures
            final(self)@ == (RadioView { v_align: align, ..old(self)@ }),
    {
        let old_v_align = self.v_align;
        self.v_align = align;
        if old_v_align != self.v_align {
            raise_change_flag(&self.change_flag_arc);
        }
    }

    pub fn set_enabled(&mut self, is_enabled: bool)
        ensures
            final(self)@ == (RadioView { is_enabled, ..old(self)@ }),
    {
        let old_enabled_flag = self.is_enabled;
        self.is_enabled = is_enabled;
        if old_enabled_flag != self.is_enabled {
            raise_change_flag(&self.change_flag_arc);
        }
    }

    pub fn text(&self) -> (r: &str)
        ensures
            r@ == self@.text,
    {
        self.text.as_str()
    }

    pub fn set_text(&mut self, s: &str)
        ensures
            final(self)@ == (RadioView { text: s@, ..old(self)@ }),
    {
        self.text = s.to_owned();
        raise_change_flag(&self.change_flag_arc);
    }

    pub fn text_align(&self) -> (r: TextAlign)
        ensures
            r == self@.text_align,
    {
        self.text_align
    }

    pub fn set_text_align(&mut self, align: TextAlign)
        ensures
            final(self)@ == (RadioView { text_align: align, ..old(self)@ }),
    {
        let old_align = self.text_align;
        self.text_align = align;
        if old_align != self.text_align {
            raise_change_flag(&self.change_flag_arc);
        }
    }

    pub fn ellipsize_count(&self) -> (r: Option<usize>)
        ensures
            r == self@.ellipsize_count,
    {
        self.ellipsize_count
    }

    pub fn set_ellipsize_count(&mut self, ellipsize_count: Option<usize>)
        ensures
            final(self)@ == (RadioView { ellipsize_count, ..old(self)@ }),
    {
        let old_ellipsize_count = self.ellipsize_count;
        self.ellipsize_count = ellipsize_count;
        if old_ellipsize_count != self.ellipsize_count {
            raise_change_flag(&self.change_flag_arc);
        }
    }

    pub fn is_trimmed(&self) -> (r: bool)
        ensures
            r == self@.is_trimmed,
    {
        self.is_trimmed
    }

    /// Sets the trimming of the text; the change flag stays as it is.
    pub fn set_trim(&mut self, is_trimmed: bool)
        ensures
            final(self)@ == (RadioView { is_trimmed, ..old(self)@ }),
    {
        self.is_trimmed = is_trimmed;
    }

    /// Returns whether the group has the selection number of the radio as the selected one.
    pub fn is_selected(&self) -> bool {
        self.group.selected() == self.selection_number
    }

    pub fn selection_number(&self) -> (r: usize)
        ensures
            r == self@.selection_number,
    {
        self.selection_number
    }

    /// Selects the radio in its group and returns its selection number.
    pub fn select(&self) -> (r: usize)
        ensures
            r == self@.selection_number,
    {
        self.group.select(self.selection_number)
    }

    /// Returns the group of the radio.
    pub fn group(&self) -> (r: Arc<RadioGroup>)
        ensures
            r == self.spec_group(),
    {
        clone_arc(&self.group)
    }

    /// Moves the radio to the group; the radio takes the new count of the group as its
    /// selection number.
    pub fn set_group(&mut self, group: Arc<RadioGroup>)
        ensures
            final(self)@ == (RadioView { selection_number: final(self)@.selection_number, ..old(self)@ }),
            final(self).spec_group() == group,
            final(self).spec_change_flag() == old(self).spec_change_flag(),
    {
        self.selection_number = group.increase_count();
        self.group = group;
        raise_change_flag(&self.change_flag_arc);
    }

    pub fn margin_bounds(&self) -> (r: Rect<i32>)
        ensures
            r == self@.margin_bounds,
    {
        self.margin_bounds
    }

    pub fn bounds(&self) -> (r: Rect<i32>)
        ensures
            r == self@.bounds,
    {
        self.bounds
    }

    pub fn weight(&self) -> (r: u32)
        ensures
            r == self@.weight,
    {
        self.weight
    }

    pub fn h_align(&self) -> (r: HAlign)
        ensures
            r == self@.h_align,
    {
        self.h_align
    }

    pub fn v_align(&self) -> (r: VAlign)
        ensures
            r == self@.v_align,
    {
        self.v_align
    }

    /// The state of the radio under the pointer or the touch.
    pub fn state(&self) -> (r: WidgetState)
        ensures
            r == self@.state,
    {
        self.state
    }

    /// Sets the state under the pointer or the touch; the change flag is raised where it
    /// changes.
    pub fn set_state(&mut self, state: WidgetState)
        ensures
            final(self)@ == (RadioView { state, ..old(self)@ }),
    {
        let old_state = self.state;
        self.state = state;
        if old_state != self.state {
            raise_change_flag(&self.change_flag_arc);
        }
    }

    pub fn is_enabled(&self) -> (r: bool)
        ensures
            r == self@.is_enabled,
    {
        self.is_enabled
    }

    /// A radio is focusable while it is enabled.
    pub fn is_focusable(&self) -> (r: bool)
        ensures
            r == self@.is_enabled,
    {
        self.is_enabled
    }

    /// A radio is focused while it is enabled and has the focus.
    pub fn is_focused(&self) -> (r: bool)
        ensures
            r == (self@.is_enabled && self@.is_focused),
    {
        self.is_enabled && self.is_focused
    }

    /// Sets the focus of an enabled radio and returns `true`; a disabled radio refuses it.
    pub fn set_focus(&mut self, is_focused: bool) -> (r: bool)
        ensures
            r == old(self)@.is_enabled,
            r ==> final(self)@ == (RadioView { is_focused, ..old(self)@ }),
            !r ==> final(self)@ == old(self)@,
    {
        if self.is_enabled {
            let old_focus_flag = self.is_focused;
            self.is_focused = is_focused;
            if old_focus_flag != self.is_focused {
                raise_change_flag(&self.change_flag_arc);
            }
            true
        } else {
            false
        }
    }

    /// Shares the change flag of a container.
    pub fn set_change_flag_arc(&mut self, flag_arc: Arc<AtomicBool>)
        ensures
            final(self)@ == old(self)@,
            final(self).spec_change_flag() == flag_arc,
    {
        self.change_flag_arc = flag_arc;
    }

    pub fn preferred_size(&self) -> (r: Size<Option<i32>>)
        ensures
            r == self@.preferred_size,
    {
        self.preferred_size
    }

    pub fn set_preferred_size(&mut self, size: Size<Option<i32>>)
        ensures
            final(self)@ == (RadioView { preferred_size: size, ..old(self)@ }),
    {
        let old_preferred_size = self.preferred_size;
        self.preferred_size = size;
        if old_preferred_size.width != self.preferred_size.width || old_preferred_size.height != self.preferred_size.height {
            raise_change_flag(&self.change_flag_arc);
        }
    }

    /// Computes the size of the radio for the area size: the text laid out in the area inside
    /// the margins and the padding, with the padding, widened to the preferred size, with the
    /// margins, and aligned in the area.
    pub fn update_size<T: Theme>(&mut self, theme: &T, area_size: Size<Option<i32>>)
        ensures
            final(self)@ == (RadioView {
                margin_bounds: Rect { width: radio_sizes(old(self)@, *theme, area_size).margin_size.width, height: radio_sizes(old(self)@, *theme, area_size).margin_size.height, ..old(self)@.margin_bounds },
                bounds: Rect { width: radio_sizes(old(self)@, *theme, area_size).size.width, height: radio_sizes(old(self)@, *theme, area_size).size.height, ..old(self)@.bounds },
                ..old(self)@
            }),
    {
        let margin_edges = theme.radio_margin_edges();
        let padding_edges = theme.radio_padding_edges();
        let inner_area_size = inner_opt_size(area_size, margin_edges);
        let padding_area_size = inner_opt_size(inner_area_size, padding_edges);
        let padding_size = theme.radio_text_size(self.text.as_str(), self.ellipsize_count, self.is_trimmed, padding_area_size);
        self.bounds.set_size(outer_size(padding_size, padding_edges));
        self.bounds.set_size(max_size_for_opt_size(self.bounds.size(), self.preferred_size));
        self.margin_bounds.set_size(outer_size(self.bounds.size(), margin_edges));
        self.margin_bounds.set_size(size_for_h_align_and_v_align(self.margin_bounds.size(), area_size, self.h_align, self.v_align));
        self.bounds.set_size(inner_size(self.margin_bounds.size(), margin_edges));
    }

    /// Computes the position of the radio in the area bounds: the margin bounds aligned in the
    /// area and moved back by the client position, and the bounds inside the margins.
    pub fn update_pos<T: Theme>(&mut self, theme: &T, area_bounds: Rect<i32>)
        ensures
            final(self)@ == (RadioView {
                margin_bounds: Rect {
                    x: leaf_margin_pos_of(old(self)@.margin_bounds, old(self)@.client_pos, area_bounds, old(self)@.h_align, old(self)@.v_align).x,
                    y: leaf_margin_pos_of(old(self)@.margin_bounds, old(self)@.client_pos, area_bounds, old(self)@.h_align, old(self)@.v_align).y,
                    ..old(self)@.margin_bounds
                },
                bounds: Rect {
                    x: leaf_margin_pos_of(old(self)@.margin_bounds, old(self)@.client_pos, area_bounds, old(self)@.h_align, old(self)@.v_align).x.wrapping_add(theme.spec_radio_margin_edges().left),
                    y: leaf_margin_pos_of(old(self)@.margin_bounds, old(self)@.client_pos, area_bounds, old(self)@.h_align, old(self)@.v_align).y.wrapping_add(theme.spec_radio_margin_edges().top),
                    ..old(self)@.bounds
                },
                ..old(self)@
            }),
    {
        let margin_edges = theme.radio_margin_edges();
        self.margin_bounds.set_pos(pos_for_h_align_and_v_align(self.margin_bounds.size(), area_bounds, self.h_align, self.v_align));
        self.margin_bounds.x = self.margin_bounds.x.wrapping_sub(self.client_pos.x);
        self.margin_bounds.y = self.margin_bounds.y.wrapping_sub(self.client_pos.y);
        self.bounds.set_pos(inner_pos(self.margin_bounds, margin_edges));
    }
}

/// The sizes of a radio after `update_size`.
pub open spec fn radio_sizes<T: Theme>(v: RadioView, theme: T, area_size: Size<Option<i32>>) -> LeafSizes {
    let margin_edges = theme.spec_radio_margin_edges();
    let padding_edges = theme.spec_radio_padding_edges();
    let padding_area_size = inner_opt_size_of(inner_opt_size_of(area_size, margin_edges), padding_edges);
    let padding_size = theme.spec_radio_text_size(v.text, v.ellipsize_count, v.is_trimmed, padding_area_size);
    leaf_size_of(padding_size, padding_edges, margin_edges, v.preferred_size, area_size, v.h_align, v.v_align)
}

} // verus!
