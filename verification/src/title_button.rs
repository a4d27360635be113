//! A title button: a button with an icon in the title bar of a window.
use std::sync::atomic::AtomicBool;
use std::sync::atomic::Ordering;
use std::sync::Arc;
use vstd::prelude::*;
use crate::theme::Theme;
use crate::types::{HAlign, Pos, Rect, Size, TitleButtonIcon, VAlign, WidgetState};
use crate::utils::{
    inner_pos,
    inner_size,
    max_size_for_opt_size,
    outer_size,
    pos_for_h_align_and_v_align,
    size_for_h_align_and_v_align,
};
use crate::widget_sizes::{leaf_margin_pos_of, leaf_size_of, LeafSizes};

verus! {

/// What a title button holds, as plain values.
pub struct TitleButtonView {
    pub state: WidgetState,
    pub margin_bounds: Rect<i32>,
    pub bounds: Rect<i32>,
    pub client_pos: Pos<i32>,
    pub weight: u32,
    pub h_align: HAlign,
    pub v_align: VAlign,
    pub is_enabled: bool,
    pub preferred_size: Size<Option<i32>>,
    pub icon: TitleButtonIcon,
}

/// A title button.
///
/// It raises its change flag when a setting that changes its look changes.
pub struct TitleButton {
    state: WidgetState,
    margin_bounds: Rect<i32>,
    bounds: Rect<i32>,
    client_pos: Pos<i32>,
    weight: u32,
    h_align: HAlign,
    v_align: VAlign,
    is_enabled: bool,
    change_flag_arc: Arc<AtomicBool>,
    preferred_size: Size<Option<i32>>,
    icon: TitleButtonIcon,
}

impl View for TitleButton {
    type V = TitleButtonView;

    closed spec fn view(&self) -> TitleButtonView {
        TitleButtonView {
            state: self.state,
            margin_bounds: self.margin_bounds,
            bounds: self.bounds,
            client_pos: self.client_pos,
            weight: self.weight,
            h_align: self.h_align,
            v_align: self.v_align,
            is_enabled: self.is_enabled,
            preferred_size: self.preferred_size,
            icon: self.icon,
        }
    }
}

/// Raises the change flag.
fn raise_change_flag(flag_arc: &Arc<AtomicBool>) {
    flag_arc.store(true, Ordering::SeqCst);
}

/// A new title button with the icon: enabled, in the normal state, centred in its area, with zero
/// bounds.
pub open spec fn new_title_button_view(icon: TitleButtonIcon) -> TitleButtonView {
    TitleButtonView {
        state: WidgetState::Normal,
        margin_bounds: Rect { x: 0i32, y: 0i32, width: 0i32, height: 0i32 },
        bounds: Rect { x: 0i32, y: 0i32, width: 0i32, height: 0i32 },
        client_pos: Pos { x: 0i32, y: 0i32 },
        weight: 0,
        h_align: HAlign::Center,
        v_align: VAlign::Center,
        is_enabled: true,
        preferred_size: Size { width: None, height: None },
        icon,
    }
}

impl TitleButton {
    /// The change flag that the title button raises when it changes.
    pub closed spec fn spec_change_flag(&self) -> Arc<AtomicBool> {
        self.change_flag_arc
    }

    /// Returns a new enabled title button with the icon, centred in its area.
    pub fn new(icon: TitleButtonIcon) -> (r: Self)
        ensures
            r@ == new_title_button_view(icon),
    {
        TitleButton {
            state: WidgetState::Normal,
            margin_bounds: Rect::new(0, 0, 0, 0),
            bounds: Rect::new(0, 0, 0, 0),
            client_pos: Pos::new(0, 0),
            weight: 0,
            h_align: HAlign::Center,
            v_align: VAlign::Center,
            is_enabled: true,
            change_flag_arc: Arc::new(AtomicBool::new(false)),
            preferred_size: Size::new(None, None),
            icon,
        }
    }

    pub fn set_weight(&mut self, weight: u32)
        ensures
            final(self)@ == (TitleButtonView { weight, ..old(self)@ }),
    {
        let old_weight = self.weight;
        self.weight = weight;
        if old_weight != self.weight {
            raise_change_flag(&self.change_flag_arc);
        }
    }

    pub fn set_h_align(&mut self, align: HAlign)
        ensures
            final(self)@ == (TitleButtonView { h_align: align, ..old(self)@ }),
    {
        let old_h_align = self.h_align;
        self.h_align = align;
        if old_h_align != self.h_align {
            raise_change_flag(&self.change_flag_arc);
        }
    }

    pub fn set_v_align(&mut self, align: VAlign)
        ensures
            final(self)@ == (TitleButtonView { v_align: align, ..old(self)@ }),
    {
        let old_v_align = self.v_align;
        self.v_align = align;
        if old_v_align != self.v_align {
            raise_change_flag(&self.change_flag_arc);
        }
    }

    pub fn set_enabled(&mut self, is_enabled: bool)
        ensures
            final(self)@ == (TitleButtonView { is_enabled, ..old(self)@ }),
    {
        let old_enabled_flag = self.is_enabled;
        self.is_enabled = is_enabled;
        if old_enabled_flag != self.is_enabled {
            raise_change_flag(&self.change_flag_arc);
        }
    }

    /// Sets the icon and raises the change flag.
    pub fn set_icon(&mut self, icon: TitleButtonIcon)
        ensures
            final(self)@ == (TitleButtonView { icon, ..old(self)@ }),
    {
        self.icon = icon;
        raise_change_flag(&self.change_flag_arc);
    }

    pub fn icon(&self) -> (r: TitleButtonIcon)
        ensures
            r == self@.icon,
    {
        self.icon
    }

    pub fn margin_bounds(&self) -> (r: Rect<i32>)
        ensures
            r == self@.margin_bounds,
    {
        self.margin_bounds
    }

    pub fn bounds(&self) -> (r: Rect<i32>)
        ensures
            r == self@.bounds,
    {
        self.bounds
    }

    pub fn weight(&self) -> (r: u32)
        ensures
            r == self@.weight,
    {
        self.weight
    }

    pub fn h_align(&self) -> (r: HAlign)
        ensures
            r == self@.h_align,
    {
        self.h_align
    }

    pub fn v_align(&self) -> (r: VAlign)
        ensures
            r == self@.v_align,
    {
        self.v_align
    }

    /// The state of the title button under the pointer or the touch.
    pub fn state(&self) -> (r: WidgetState)
        ensures
            r == self@.state,
    {
        self.state
    }

    /// Sets the state under the pointer or the touch; the change flag is raised where it
    /// changes.
    pub fn set_state(&mut self, state: WidgetState)
        ensures
            final(self)@ == (TitleButtonView { state, ..old(self)@ }),
    {
        let old_state = self.state;
        self.state = state;
        if old_state != self.state {
            raise_change_flag(&self.change_flag_arc);
        }
    }

    pub fn is_enabled(&self) -> (r: bool)
        ensures
            r == self@.is_enabled,
    {
        self.is_enabled
    }

    /// A title button is clicked: it takes clicks whether or not it is enabled.
    pub fn is_clickable(&self) -> (r: bool)
        ensures
            r,
    {
        true
    }

    /// Shares the change flag of a container.
    pub fn set_change_flag_arc(&mut self, flag_arc: Arc<AtomicBool>)
        ensures
            final(self)@ == old(self)@,
            final(self).spec_change_flag() == flag_arc,
    {
        self.change_flag_arc = flag_arc;
    }

    pub fn preferred_size(&self) -> (r: Size<Option<i32>>)
        ensures
            r == self@.preferred_size,
    {
        self.preferred_size
    }

    pub fn set_preferred_size(&mut self, size: Size<Option<i32>>)
        ensures
            final(self)@ == (TitleButtonView { preferred_size: size, ..old(self)@ }),
    {
        let old_preferred_size = self.preferred_size;
        self.preferred_size = size;
        if old_preferred_size.width != self.preferred_size.width || old_preferred_size.height != self.preferred_size.height {
            raise_change_flag(&self.change_flag_arc);
        }
    }

    /// Computes the size of the title button for the area size: the icon size with the
    /// padding, widened to the preferred size, with the margins, and aligned in the area.
    pub fn update_size<T: Theme>(&mut self, theme: &T, area_size: Size<Option<i32>>)
        ensures
            final(self)@ == (TitleButtonView {
                margin_bounds: Rect { width: title_button_sizes(old(self)@, *theme, area_size).margin_size.width, height: title_button_sizes(old(self)@, *theme, area_size).margin_size.height, ..old(self)@.margin_bounds },
                bounds: Rect { width: title_button_sizes(old(self)@, *theme, area_size).size.width, height: title_button_sizes(old(self)@, *theme, area_size).size.height, ..old(self)@.bounds },
                ..old(self)@
            }),
    {
        let margin_edges = theme.title_button_margin_edges();
        let padding_edges = theme.title_button_padding_edges();
        let padding_size = theme.title_button_icon_size();
        self.bounds.set_size(outer_size(padding_size, padding_edges));
        self.bounds.set_size(max_size_for_opt_size(self.bounds.size(), self.preferred_size));
        self.margin_bounds.set_size(outer_size(self.bounds.size(), margin_edges));
        self.margin_bounds.set_size(size_for_h_align_and_v_align(self.margin_bounds.size(), area_size, self.h_align, self.v_align));
        self.bounds.set_size(inner_size(self.margin_bounds.size(), margin_edges));
    }

    /// Computes the position of the title button in the area bounds: the margin bounds aligned
    /// in the area and moved back by the client position, and the bounds inside the margins.
    pub fn update_pos<T: Theme>(&mut self, theme: &T, area_bounds: Rect<i32>)
        ensures
            final(self)@ == (TitleButtonView {
                margin_bounds: Rect {
                    x: leaf_margin_pos_of(old(self)@.margin_bounds, old(self)@.client_pos, area_bounds, old(self)@.h_align, old(self)@.v_align).x,
                    y: leaf_margin_pos_of(old(self)@.margin_bounds, old(self)@.client_pos, area_bounds, old(self)@.h_align, old(self)@.v_align).y,
                    ..old(self)@.margin_bounds
                },
                bounds: Rect {
                    x: leaf_margin_pos_of(old(self)@.margin_bounds, old(self)@.client_pos, area_bounds, old(self)@.h_align, old(self)@.v_align).x.wrapping_add(theme.spec_title_button_margin_edges().left),
                    y: leaf_margin_pos_of(old(self)@.margin_bounds, old(self)@.client_pos, area_bounds, old(self)@.h_align, old(self)@.v_align).y.wrapping_add(theme.spec_title_button_margin_edges().top),
                    ..old(self)@.bounds
                },
                ..old(self)@
            }),
    {
        let margin_edges = theme.title_button_margin_edges();
        self.margin_bounds.set_pos(pos_for_h_align_and_v_align(self.margin_bounds.size(), area_bounds, self.h_align, self.v_align));
        self.margin_bounds.x = self.margin_bounds.x.wrapping_sub(self.client_pos.x);
        self.margin_bounds.y = self.margin_bounds.y.wrapping_sub(self.client_pos.y);
        self.bounds.set_pos(inner_pos(self.margin_bounds, margin_edges));
    }
}

/// The sizes of a title button after `update_size`.
pub open spec fn title_button_sizes<T: Theme>(v: TitleButtonView, theme: T, area_size: Size<Option<i32>>) -> LeafSizes {
    leaf_size_of(
        theme.spec_title_button_icon_size(),
        theme.spec_title_button_padding_edges(),
        theme.spec_title_button_margin_edges(),
        v.preferred_size,
        area_size,
        v.h_align,
        v.v_align,
    )
}

} // verus!
