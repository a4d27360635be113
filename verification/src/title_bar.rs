//! A title bar: a horizontal linear layout of widgets at the top of a window.
use std::sync::atomic::AtomicBool;
use std::sync::atomic::Ordering;
use std::sync::Arc;
use vstd::prelude::*;
use crate::linear_layout_widgets::{layout_child, layout_next, layout_prev, layout_first_pass, layout_size_of, layout_sized_widgets, layout_weight_width, same_weights, weight_total, zero_weight_width_total, LinearLayoutWidgets};
use crate::types::{HAlign, Orient, Pos, Rect, Size, VAlign, WidgetIndexPair, WidgetState};
use crate::utils::{pos_for_align_of, pos_for_h_align_and_v_align};
use crate::widget::{clone_arc, same_but_change_flag, Widget};

verus! {

/// What a title bar holds, as plain values.
pub struct TitleBarView<W> {
    pub state: WidgetState,
    pub bounds: Rect<i32>,
    pub client_pos: Pos<i32>,
    pub weight: u32,
    pub h_align: HAlign,
    pub v_align: VAlign,
    pub is_enabled: bool,
    pub preferred_size: Size<Option<i32>>,
    pub widgets: Seq<W>,
    pub zero_weight_width_sum: i32,
    pub weight_sum: u32,
    pub weight_width: i32,
    pub weight_width_rem: i32,
}

/// A title bar: its widgets are laid out in a row.
///
/// The widgets of a title bar share its change flag, and the title bar raises it when its
/// widgets or a setting that changes its look change.
pub struct TitleBar<W> {
    state: WidgetState,
    bounds: Rect<i32>,
    client_pos: Pos<i32>,
    weight: u32,
    h_align: HAlign,
    v_align: VAlign,
    is_enabled: bool,
    change_flag_arc: Arc<AtomicBool>,
    preferred_size: Size<Option<i32>>,
    pub widgets: LinearLayoutWidgets<W>,
}

impl<W> View for TitleBar<W> {
    type V = TitleBarView<W>;

    closed spec fn view(&self) -> TitleBarView<W> {
        TitleBarView {
            state: self.state,
            bounds: self.bounds,
            client_pos: self.client_pos,
            weight: self.weight,
            h_align: self.h_align,
            v_align: self.v_align,
            is_enabled: self.is_enabled,
            preferred_size: self.preferred_size,
            widgets: self.widgets.widgets@,
            zero_weight_width_sum: self.widgets.zero_weight_width_sum,
            weight_sum: self.widgets.weight_sum,
            weight_width: self.widgets.weight_width,
            weight_width_rem: self.widgets.weight_width_rem,
        }
    }
}

/// Raises the change flag.
fn raise_change_flag(flag_arc: &Arc<AtomicBool>) {
    flag_arc.store(true, Ordering::SeqCst);
}

/// Returns a new lowered change flag.
fn new_change_flag() -> Arc<AtomicBool> {
    Arc::new(AtomicBool::new(false))
}

impl<W: Widget> TitleBar<W> {
    /// The change flag that the title bar raises when it changes.
    pub closed spec fn spec_change_flag(&self) -> Arc<AtomicBool> {
        self.change_flag_arc
    }

    /// Returns a new enabled title bar without widgets, which fills its area horizontally.
    pub fn new() -> (r: Self)
        ensures
            r@ == (TitleBarView {
                state: WidgetState::Normal,
                bounds: Rect { x: 0i32, y: 0i32, width: 0i32, height: 0i32 },
                client_pos: Pos { x: 0i32, y: 0i32 },
                weight: 0,
                h_align: HAlign::Fill,
                v_align: VAlign::Top,
                is_enabled: true,
                preferred_size: Size { width: None, height: None },
                widgets: Seq::<W>::empty(),
                zero_weight_width_sum: 0,
                weight_sum: 0,
                weight_width: 0,
                weight_width_rem: 0,
            }),
    {
        TitleBar {
            state: WidgetState::Normal,
            bounds: Rect::new(0, 0, 0, 0),
            client_pos: Pos::new(0, 0),
            weight: 0,
            h_align: HAlign::Fill,
            v_align: VAlign::Top,
            is_enabled: true,
            change_flag_arc: new_change_flag(),
            preferred_size: Size::new(None, None),
            widgets: LinearLayoutWidgets::new(),
        }
    }

    pub fn set_weight(&mut self, weight: u32)
        ensures
            final(self)@ == (TitleBarView { weight, ..old(self)@ }),
    {
        let old_weight = self.weight;
        self.weight = weight;
        if old_weight != self.weight {
            raise_change_flag(&self.change_flag_arc);
        }
    }

    pub fn set_h_align(&mut self, align: HAlign)
        ensures
            final(self)@ == (TitleBarView { h_align: align, ..old(self)@ }),
    {
        let old_h_align = self.h_align;
        self.h_align = align;
        if old_h_align != self.h_align {
            raise_change_flag(&self.change_flag_arc);
        }
    }

    pub fn set_v_align(&mut self, align: VAlign)
        ensures
            final(self)@ == (TitleBarView { v_align: align, ..old(self)@ }),
    {
        let old_v_align = self.v_align;
        self.v_align = align;
        if old_v_align != self.v_align {
            raise_change_flag(&self.change_flag_arc);
        }
    }

    pub fn set_enabled(&mut self, is_enabled: bool)
        ensures
            final(self)@ == (TitleBarView { is_enabled, ..old(self)@ }),
    {
        let old_enabled_flag = self.is_enabled;
        self.is_enabled = is_enabled;
        if old_enabled_flag != self.is_enabled {
            raise_change_flag(&self.change_flag_arc);
        }
    }

    /// Adds a widget at the end; the widget shares the change flag of the title bar.
    pub fn add_dyn(&mut self, widget: W) -> (r: Option<WidgetIndexPair>)
        ensures
            r == Some(WidgetIndexPair(old(self)@.widgets.len() as usize, 0)),
            final(self)@.widgets.len() == old(self)@.widgets.len() + 1,
            final(self)@.widgets.drop_last() == old(self)@.widgets,
            same_but_change_flag(final(self)@.widgets.last(), widget),
            final(self)@.widgets.last() == widget.spec_with_change_flag(old(self).spec_change_flag()),
            final(self).spec_change_flag() == old(self).spec_change_flag(),
            final(self)@ == (TitleBarView { widgets: final(self)@.widgets, ..old(self)@ }),
    {
        let mut widget = widget;
        widget.set_change_flag_arc(clone_arc(&self.change_flag_arc));
        match self.widgets.add_dyn(widget) {
            Some(idx_pair) => {
                raise_change_flag(&self.change_flag_arc);
                proof {
                    assert(self.widgets.widgets@.drop_last() =~= old(self).widgets.widgets@);
                }
                Some(idx_pair)
            },
            None => None,
        }
    }

    /// Adds a widget at the end; the widget shares the change flag of the title bar.
    pub fn add(&mut self, widget: W) -> (r: Option<WidgetIndexPair>)
        ensures
            r == Some(WidgetIndexPair(old(self)@.widgets.len() as usize, 0)),
            final(self)@.widgets.len() == old(self)@.widgets.len() + 1,
            final(self)@.widgets.drop_last() == old(self)@.widgets,
            same_but_change_flag(final(self)@.widgets.last(), widget),
            final(self)@.widgets.last() == widget.spec_with_change_flag(old(self).spec_change_flag()),
            final(self).spec_change_flag() == old(self).spec_change_flag(),
            final(self)@ == (TitleBarView { widgets: final(self)@.widgets, ..old(self)@ }),
    {
        self.add_dyn(widget)
    }

    /// Inserts a widget before the widget with the widget index pair, or at the end for the
    /// pair after the last widget; the widget shares the change flag of the title bar.
    pub fn insert_dyn(&mut self, idx_pair: WidgetIndexPair, widget: W) -> (r: Option<WidgetIndexPair>)
        ensures
            idx_pair.1 == 0 && idx_pair.0 <= old(self)@.widgets.len() ==> {
                &&& r == Some(idx_pair)
                &&& final(self)@.widgets.len() == old(self)@.widgets.len() + 1
                &&& final(self)@.widgets.remove(idx_pair.0 as int) == old(self)@.widgets
                &&& same_but_change_flag(final(self)@.widgets[idx_pair.0 as int], widget)
                &&& final(self)@.widgets[idx_pair.0 as int] == widget.spec_with_change_flag(old(self).spec_change_flag())
            },
            !(idx_pair.1 == 0 && idx_pair.0 <= old(self)@.widgets.len()) ==> r is None && final(self)@.widgets == old(self)@.widgets,
            final(self)@ == (TitleBarView { widgets: final(self)@.widgets, ..old(self)@ }),
    {
        let mut widget = widget;
        widget.set_change_flag_arc(clone_arc(&self.change_flag_arc));
        let ghost w = widget;
        match self.widgets.insert_dyn(idx_pair, widget) {
            Some(idx_pair) => {
                raise_change_flag(&self.change_flag_arc);
                proof {
                    assert(old(self).widgets.widgets@.insert(idx_pair.0 as int, w).remove(idx_pair.0 as int) =~= old(self).widgets.widgets@);
                }
                Some(idx_pair)
            },
            None => None,
        }
    }

    /// Inserts a widget before the widget with the widget index pair, or at the end for the
    /// pair after the last widget; the widget shares the change flag of the title bar.
    pub fn insert(&mut self, idx_pair: WidgetIndexPair, widget: W) -> (r: Option<WidgetIndexPair>)
        ensures
            idx_pair.1 == 0 && idx_pair.0 <= old(self)@.widgets.len() ==> {
                &&& r == Some(idx_pair)
                &&& final(self)@.widgets.len() == old(self)@.widgets.len() + 1
                &&& final(self)@.widgets.remove(idx_pair.0 as int) == old(self)@.widgets
                &&& same_but_change_flag(final(self)@.widgets[idx_pair.0 as int], widget)
                &&& final(self)@.widgets[idx_pair.0 as int] == widget.spec_with_change_flag(old(self).spec_change_flag())
            },
            !(idx_pair.1 == 0 && idx_pair.0 <= old(self)@.widgets.len()) ==> r is None && final(self)@.widgets == old(self)@.widgets,
            final(self)@ == (TitleBarView { widgets: final(self)@.widgets, ..old(self)@ }),
    {
        self.insert_dyn(idx_pair, widget)
    }

    /// Removes the widget with the widget index pair and returns it with a change flag of its
    /// own.
    pub fn remove(&mut self, idx_pair: WidgetIndexPair) -> (r: Option<W>)
        ensures
            idx_pair.1 == 0 && idx_pair.0 < old(self)@.widgets.len() ==> {
                &&& r matches Some(w) && same_but_change_flag(w, old(self)@.widgets[idx_pair.0 as int])
                &&& final(self)@.widgets == old(self)@.widgets.remove(idx_pair.0 as int)
            },
            !(idx_pair.1 == 0 && idx_pair.0 < old(self)@.widgets.len()) ==> r is None && final(self)@.widgets == old(self)@.widgets,
            final(self)@ == (TitleBarView { widgets: final(self)@.widgets, ..old(self)@ }),
    {
        match self.widgets.remove(idx_pair) {
            Some(widget) => {
                raise_change_flag(&self.change_flag_arc);
                let mut widget = widget;
                widget.set_change_flag_arc(new_change_flag());
                Some(widget)
            },
            None => None,
        }
    }

    /// Removes the last widget and returns it with a change flag of its own.
    pub fn remove_last(&mut self) -> (r: Option<W>)
        ensures
            old(self)@.widgets.len() > 0 ==> {
                &&& r matches Some(w) && same_but_change_flag(w, old(self)@.widgets.last())
                &&& final(self)@.widgets == old(self)@.widgets.drop_last()
            },
            old(self)@.widgets.len() == 0 ==> r is None && final(self)@.widgets == old(self)@.widgets,
            final(self)@ == (TitleBarView { widgets: final(self)@.widgets, ..old(self)@ }),
    {
        match self.widgets.remove_last() {
            Some(widget) => {
                raise_change_flag(&self.change_flag_arc);
                let mut widget = widget;
                widget.set_change_flag_arc(new_change_flag());
                Some(widget)
            },
            None => None,
        }
    }

    /// Removes all the widgets; the computed widths stay as they are.
    pub fn clear(&mut self)
        ensures
            final(self)@ == (TitleBarView { widgets: Seq::<W>::empty(), ..old(self)@ }),
    {
        self.widgets.widgets.clear();
        raise_change_flag(&self.change_flag_arc);
    }

    /// The margin bounds of a title bar are its bounds.
    pub fn margin_bounds(&self) -> (r: Rect<i32>)
        ensures
            r == self@.bounds,
    {
        self.bounds
    }

    pub fn bounds(&self) -> (r: Rect<i32>)
        ensures
            r == self@.bounds,
    {
        self.bounds
    }

    pub fn weight(&self) -> (r: u32)
        ensures
            r == self@.weight,
    {
        self.weight
    }

    pub fn h_align(&self) -> (r: HAlign)
        ensures
            r == self@.h_align,
    {
        self.h_align
    }

    pub fn v_align(&self) -> (r: VAlign)
        ensures
            r == self@.v_align,
    {
        self.v_align
    }

    /// The state of the title bar under the pointer or the touch.
    pub fn state(&self) -> (r: WidgetState)
        ensures
            r == self@.state,
    {
        self.state
    }

    /// Sets the state under the pointer or the touch; the change flag is raised where it
    /// changes.
    pub fn set_state(&mut self, state: WidgetState)
        ensures
            final(self)@ == (TitleBarView { state, ..old(self)@ }),
    {
        let old_state = self.state;
        self.state = state;
        if old_state != self.state {
            raise_change_flag(&self.change_flag_arc);
        }
    }

    pub fn is_enabled(&self) -> (r: bool)
        ensures
            r == self@.is_enabled,
    {
        self.is_enabled
    }

    /// Shares the change flag of a container with the title bar and its widgets.
    pub fn set_change_flag_arc(&mut self, flag_arc: Arc<AtomicBool>)
        ensures
            final(self)@.widgets.len() == old(self)@.widgets.len(),
            forall|i: int| 0 <= i < final(self)@.widgets.len() ==> same_but_change_flag(#[trigger] final(self)@.widgets[i], old(self)@.widgets[i]),
            forall|i: int| 0 <= i < final(self)@.widgets.len() ==> #[trigger] final(self)@.widgets[i] == old(self)@.widgets[i].spec_with_change_flag(flag_arc),
            final(self)@ == (TitleBarView { widgets: final(self)@.widgets, ..old(self)@ }),
            final(self).spec_change_flag() == flag_arc,
    {
        let n = self.widgets.widgets.len();
        let mut i: usize = 0;
        while i < n
            invariant
                n == self.widgets.widgets@.len(),
                i <= n,
                forall|j: int| 0 <= j < i ==> same_but_change_flag(#[trigger] self.widgets.widgets@[j], old(self).widgets.widgets@[j]),
                forall|j: int| 0 <= j < i ==> #[trigger] self.widgets.widgets@[j] == old(self).widgets.widgets@[j].spec_with_change_flag(flag_arc),
                forall|j: int| i <= j < n ==> #[trigger] self.widgets.widgets@[j] == old(self).widgets.widgets@[j],
                self@ == (TitleBarView { widgets: self@.widgets, ..old(self)@ }),
            decreases n - i,
        {
            self.widgets.widgets[i].set_change_flag_arc(clone_arc(&flag_arc));
            i = i + 1;
        }
        self.change_flag_arc = flag_arc;
    }

    /// Returns the widget index pair before the given one, or the last one for `None`.
    pub fn prev(&self, idx_pair: Option<WidgetIndexPair>) -> (r: Option<WidgetIndexPair>)
        ensures
            r == layout_prev(self@.widgets.len(), idx_pair),
    {
        self.widgets.prev(idx_pair)
    }

    /// Returns the widget index pair after the given one, or the first one for `None`.
    pub fn next(&self, idx_pair: Option<WidgetIndexPair>) -> (r: Option<WidgetIndexPair>)
        ensures
            r == layout_next(self@.widgets.len(), idx_pair),
    {
        self.widgets.next(idx_pair)
    }

    /// Returns the widget for the widget index pair, or `None`.
    pub fn dyn_widget_for_index_pair(&self, idx_pair: WidgetIndexPair) -> (r: Option<&W>)
        ensures
            match r {
                Some(w) => layout_child(self@.widgets, idx_pair) == Some(*w),
                None => layout_child(self@.widgets, idx_pair) is None,
            },
    {
        self.widgets.dyn_widget(idx_pair)
    }

    /// Returns the mutable widget for the widget index pair, or `None`.
    pub fn dyn_widget_mut_for_index_pair(&mut self, idx_pair: WidgetIndexPair) -> (r: Option<&mut W>)
        ensures
            match r {
                Some(w) => {
                    &&& layout_child(old(self)@.widgets, idx_pair) == Some(*w)
                    &&& final(self)@.widgets == old(self)@.widgets.update(idx_pair.0 as int, *final(w))
                },
                None => {
                    &&& layout_child(old(self)@.widgets, idx_pair) is None
                    &&& final(self)@.widgets == old(self)@.widgets
                },
            },
            final(self)@ == (TitleBarView { widgets: final(self)@.widgets, ..old(self)@ }),
    {
        self.widgets.dyn_widget_mut(idx_pair)
    }

    pub fn preferred_size(&self) -> (r: Size<Option<i32>>)
        ensures
            r == self@.preferred_size,
    {
        self.preferred_size
    }

    pub fn set_preferred_size(&mut self, size: Size<Option<i32>>)
        ensures
            final(self)@ == (TitleBarView { preferred_size: size, ..old(self)@ }),
    {
        let old_preferred_size = self.preferred_size;
        self.preferred_size = size;
        if old_preferred_size.width != self.preferred_size.width || old_preferred_size.height != self.preferred_size.height {
            raise_change_flag(&self.change_flag_arc);
        }
    }

    /// Computes the sizes of the widgets in a row for the area size, and the size of the title
    /// bar as the size of the row.
    pub fn update_size(&mut self, theme: &W::Theme, area_size: Size<Option<i32>>)
        ensures
            final(self)@.widgets == layout_sized_widgets(old(self)@.widgets, theme, area_size, Orient::Horizontal,
                old(self)@.h_align, old(self)@.v_align, old(self)@.preferred_size),
            final(self)@.zero_weight_width_sum == zero_weight_width_total(
                layout_first_pass(old(self)@.widgets, theme, area_size, Orient::Horizontal, old(self)@.preferred_size), Orient::Horizontal),
            final(self)@.weight_sum == weight_total(old(self)@.widgets),
            (final(self)@.weight_width, final(self)@.weight_width_rem) == layout_weight_width(old(self)@.widgets, theme, area_size,
                Orient::Horizontal, old(self)@.h_align, old(self)@.v_align, old(self)@.preferred_size),
            same_weights(final(self)@.widgets, old(self)@.widgets),
            final(self)@.bounds == (Rect {
                width: layout_size_of(final(self)@.widgets, final(self)@.zero_weight_width_sum, final(self)@.weight_sum, final(self)@.weight_width,
                    final(self)@.weight_width_rem, area_size, Orient::Horizontal, old(self)@.h_align, old(self)@.v_align, old(self)@.preferred_size).width,
                height: layout_size_of(final(self)@.widgets, final(self)@.zero_weight_width_sum, final(self)@.weight_sum, final(self)@.weight_width,
                    final(self)@.weight_width_rem, area_size, Orient::Horizontal, old(self)@.h_align, old(self)@.v_align, old(self)@.preferred_size).height,
                ..old(self)@.bounds
            }),
            final(self)@ == (TitleBarView {
                bounds: final(self)@.bounds,
                widgets: final(self)@.widgets,
                zero_weight_width_sum: final(self)@.zero_weight_width_sum,
                weight_sum: final(self)@.weight_sum,
                weight_width: final(self)@.weight_width,
                weight_width_rem: final(self)@.weight_width_rem,
                ..old(self)@
            }),
    {
        self.widgets.update_size(theme, area_size, Orient::Horizontal, self.h_align, self.v_align, self.preferred_size);
        let size = self.widgets.size(area_size, Orient::Horizontal, self.h_align, self.v_align, self.preferred_size);
        self.bounds.set_size(size);
    }

    /// Computes the positions of the widgets in the area bounds moved back by the client
    /// position, and the position of the title bar aligned there.
    pub fn update_pos(&mut self, theme: &W::Theme, area_bounds: Rect<i32>)
        ensures
            same_weights(final(self)@.widgets, old(self)@.widgets),
            final(self)@.bounds == (Rect {
                x: pos_for_align_of(Size { width: old(self)@.bounds.width, height: old(self)@.bounds.height }, client_area_bounds(area_bounds, old(self)@.client_pos), old(self)@.h_align, old(self)@.v_align).x,
                y: pos_for_align_of(Size { width: old(self)@.bounds.width, height: old(self)@.bounds.height }, client_area_bounds(area_bounds, old(self)@.client_pos), old(self)@.h_align, old(self)@.v_align).y,
                ..old(self)@.bounds
            }),
            final(self)@ == (TitleBarView { bounds: final(self)@.bounds, widgets: final(self)@.widgets, ..old(self)@ }),
    {
        let mut area_bounds2 = area_bounds;
        area_bounds2.x = area_bounds2.x.wrapping_sub(self.client_pos.x);
        area_bounds2.y = area_bounds2.y.wrapping_sub(self.client_pos.y);
        self.widgets.update_pos(theme, area_bounds2, Orient::Horizontal, self.h_align, self.v_align, self.preferred_size);
        let pos = pos_for_h_align_and_v_align(self.bounds.size(), area_bounds2, self.h_align, self.v_align);
        self.bounds.set_pos(pos);
    }
}

/// The area bounds moved back by the client position.
pub open spec fn client_area_bounds(area_bounds: Rect<i32>, client_pos: Pos<i32>) -> Rect<i32> {
    Rect { x: area_bounds.x.wrapping_sub(client_pos.x), y: area_bounds.y.wrapping_sub(client_pos.y), ..area_bounds }
}

} // verus!
