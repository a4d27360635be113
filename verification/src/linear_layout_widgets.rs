//! A linear layout of widgets: a row or a column of widgets, where the widgets with weights
//! share the free length in proportion to their weights.
use vstd::prelude::*;
use crate::types::{HAlign, Orient, Rect, Size, VAlign, WidgetIndexPair};
use crate::utils::{
    len_for_align,
    min_opt_height_for_opt_height,
    min_opt_of,
    min_opt_size_for_opt_size,
    min_opt_width_for_opt_width,
    orient_height_of,
    orient_pos_x,
    orient_pos_y,
    orient_rect,
    orient_rect_of,
    orient_size,
    orient_size_height,
    orient_size_of,
    orient_size_width,
    orient_width_of,
    orient_x_of,
    orient_y_of,
    pos_for_align_of,
    pos_for_h_align_and_v_align,
    height_for_v_align,
    width_for_h_align,
};
use crate::widget::Widget;

verus! {

/// The margin size of a widget.
pub open spec fn margin_size_of<W: Widget>(w: W) -> Size<i32> {
    Size { width: w.spec_margin_bounds().width, height: w.spec_margin_bounds().height }
}

/// The margin width of a widget along the orientation.
pub open spec fn orient_margin_width<W: Widget>(w: W, orient: Orient) -> i32 {
    orient_width_of(margin_size_of(w), orient)
}

/// The margin height of a widget across the orientation.
pub open spec fn orient_margin_height<W: Widget>(w: W, orient: Orient) -> i32 {
    orient_height_of(margin_size_of(w), orient)
}

/// The sum of the weights, wrapping around on overflow.
pub open spec fn weight_total<W: Widget>(ws: Seq<W>) -> u32
    decreases ws.len(),
{
    if ws.len() == 0 {
        0
    } else {
        weight_total(ws.drop_last()).wrapping_add(ws.last().spec_weight())
    }
}

/// The sum of the margin widths of the widgets without weight, wrapping around on overflow.
pub open spec fn zero_weight_width_total<W: Widget>(ws: Seq<W>, orient: Orient) -> i32
    decreases ws.len(),
{
    if ws.len() == 0 {
        0
    } else {
        let s = zero_weight_width_total(ws.drop_last(), orient);
        if ws.last().spec_weight() == 0 {
            s.wrapping_add(orient_margin_width(ws.last(), orient))
        } else {
            s
        }
    }
}

/// The width that is left of the area width by the widgets without weight, one after another.
pub open spec fn remaining_width<W: Widget>(area_width: i32, ws: Seq<W>, orient: Orient) -> i32
    decreases ws.len(),
{
    if ws.len() == 0 {
        area_width
    } else {
        let r = remaining_width(area_width, ws.drop_last(), orient);
        if ws.last().spec_weight() == 0 {
            r.wrapping_sub(orient_margin_width(ws.last(), orient))
        } else {
            r
        }
    }
}

/// A quotient that truncates toward zero and wraps around on overflow.
pub open spec fn wrapping_quot(x: i32, d: i32) -> i32 {
    match x.checked_div(d) {
        Some(q) => q,
        None => x,
    }
}

/// A remainder of the truncating division; zero where the division overflows.
pub open spec fn wrapping_rem_of(x: i32, d: i32) -> i32 {
    match x.checked_rem(d) {
        Some(r) => r,
        None => 0,
    }
}

/// The greatest margin width per weight unit over the widgets with weight, or zero.
pub open spec fn max_weight_width_of<W: Widget>(ws: Seq<W>, orient: Orient) -> i32
    decreases ws.len(),
{
    if ws.len() == 0 {
        0
    } else {
        let m = max_weight_width_of(ws.drop_last(), orient);
        let w = ws.last();
        if w.spec_weight() > 0 {
            let q = wrapping_quot(orient_margin_width(w, orient), w.spec_weight() as i32);
            if m >= q { m } else { q }
        } else {
            m
        }
    }
}

/// The greatest margin height across the orientation, or zero.
pub open spec fn max_widget_height_of<W: Widget>(ws: Seq<W>, orient: Orient) -> i32
    decreases ws.len(),
{
    if ws.len() == 0 {
        0
    } else {
        let m = max_widget_height_of(ws.drop_last(), orient);
        let h = orient_margin_height(ws.last(), orient);
        if m >= h { m } else { h }
    }
}

/// Whether the alignment along the orientation lets the weighted widgets shrink to their
/// widths: it does not fill and there is no preferred width along the orientation.
pub open spec fn shrinks_along(orient: Orient, h_align: HAlign, v_align: VAlign, preferred_size: Size<Option<i32>>) -> bool {
    match orient {
        Orient::Horizontal => h_align != HAlign::Fill && preferred_size.width is None,
        Orient::Vertical => v_align != VAlign::Fill && preferred_size.height is None,
    }
}

/// The width per weight unit and its remainder.
///
/// With an area width along the orientation and a positive weight sum, the width that the
/// widgets without weight leave is divided by the weight sum; when the layout can shrink and
/// the widest weighted widget needs no more than that quotient, the quotient of that widget is
/// used with no remainder. Otherwise the quotient of the widest weighted widget is used with no
/// remainder.
pub open spec fn weight_width_of<W: Widget>(
    area_size: Size<Option<i32>>,
    orient: Orient,
    h_align: HAlign,
    v_align: VAlign,
    preferred_size: Size<Option<i32>>,
    zero_weight_sized: Seq<W>,
    weight_sum: u32,
    max_weight_width: i32,
) -> (i32, i32) {
    let area_size2 = Size { width: min_opt_of(area_size.width, preferred_size.width), height: min_opt_of(area_size.height, preferred_size.height) };
    match orient_width_of(area_size2, orient) {
        Some(a) => {
            if weight_sum > 0 {
                let r = remaining_width(a, zero_weight_sized, orient);
                let ww = wrapping_quot(r, weight_sum as i32);
                let wr = wrapping_rem_of(r, weight_sum as i32);
                if shrinks_along(orient, h_align, v_align, preferred_size) && max_weight_width <= ww {
                    (max_weight_width, 0)
                } else {
                    (ww, wr)
                }
            } else {
                (max_weight_width, 0)
            }
        },
        None => (max_weight_width, 0),
    }
}

/// The widgets keep their number, weights and alignments.
pub open spec fn same_weights<W: Widget>(a: Seq<W>, b: Seq<W>) -> bool {
    &&& a.len() == b.len()
    &&& forall|i: int| 0 <= i < a.len() ==> {
        &&& #[trigger] a[i].spec_weight() == b[i].spec_weight()
        &&& a[i].spec_h_align() == b[i].spec_h_align()
        &&& a[i].spec_v_align() == b[i].spec_v_align()
    }
}

/// The area size for the widgets: each side is the narrower of the area side and the preferred
/// side.
pub open spec fn bounded_area_size(area_size: Size<Option<i32>>, preferred_size: Size<Option<i32>>) -> Size<Option<i32>> {
    Size { width: min_opt_of(area_size.width, preferred_size.width), height: min_opt_of(area_size.height, preferred_size.height) }
}

/// The area size of a widget without weight in the first pass of `update_size`: along the
/// orientation, the width that the widgets before it left.
pub open spec fn first_pass_area<W: Widget>(before: Seq<W>, area_size2: Size<Option<i32>>, orient: Orient) -> Size<Option<i32>> {
    match orient_width_of(area_size2, orient) {
        Some(a) => orient_size_of(Some(remaining_width(a, before, orient)), orient_height_of(area_size2, orient), orient),
        None => area_size2,
    }
}

/// The widgets after the first pass of `update_size`, which sizes the widgets without weight one
/// after another.
pub open spec fn first_pass_of<W: Widget>(ws: Seq<W>, theme: &W::Theme, area_size2: Size<Option<i32>>, orient: Orient) -> Seq<W>
    decreases ws.len(),
{
    if ws.len() == 0 {
        ws
    } else {
        let before = first_pass_of(ws.drop_last(), theme, area_size2, orient);
        let w = ws.last();
        if w.spec_weight() > 0 {
            before.push(w)
        } else {
            before.push(w.spec_updated_size(theme, first_pass_area(before, area_size2, orient)))
        }
    }
}

/// The quotient and the remainder of the width that the widgets without weight leave, divided
/// by the weight sum; `None` for an unbounded area width along the orientation or no weight.
pub open spec fn weight_division_of<W: Widget>(first: Seq<W>, area_size2: Size<Option<i32>>, weight_sum: u32, orient: Orient) -> Option<(i32, i32)> {
    match orient_width_of(area_size2, orient) {
        Some(a) => {
            if weight_sum > 0 {
                let r = remaining_width(a, first, orient);
                Some((wrapping_quot(r, weight_sum as i32), wrapping_rem_of(r, weight_sum as i32)))
            } else {
                None
            }
        },
        None => None,
    }
}

/// The area size of a weighted widget in the second pass of `update_size`: its share of the
/// divided width, or an unbounded width where there is no division.
pub open spec fn second_pass_area(division: Option<(i32, i32)>, rem_count: i32, weight: u32, area_size2: Size<Option<i32>>, orient: Orient) -> Size<Option<i32>> {
    match division {
        Some((q, r)) => orient_size_of(Some(weighted_area_width(q, r, rem_count, weight)), orient_height_of(area_size2, orient), orient),
        None => orient_size_of(None, orient_height_of(area_size2, orient), orient),
    }
}

/// The widgets after the second pass of `update_size`, which sizes the weighted widgets.
pub open spec fn second_pass_of<W: Widget>(first: Seq<W>, theme: &W::Theme, division: Option<(i32, i32)>, area_size2: Size<Option<i32>>, orient: Orient) -> Seq<W> {
    Seq::new(first.len(), |j: int| {
        let w = first[j];
        if w.spec_weight() > 0 {
            w.spec_updated_size(theme, second_pass_area(division, rem_count_of(first.subrange(0, j)), w.spec_weight(), area_size2, orient))
        } else {
            w
        }
    })
}

/// Whether the widget fills an unbounded side of the area, so that the third pass of
/// `update_size` sizes it again.
pub open spec fn fills_unbounded<W: Widget>(w: W, area_size2: Size<Option<i32>>) -> bool {
    ||| (w.spec_h_align() == HAlign::Fill && area_size2.width is None)
    ||| (w.spec_v_align() == VAlign::Fill && area_size2.height is None)
}

/// The area size of a widget in the third pass of `update_size`: its final width along the
/// orientation and the greatest widget height across it.
pub open spec fn third_pass_area<W: Widget>(w: W, weight_width: i32, weight_width_rem: i32, rem_count: i32, max_height: i32, orient: Orient) -> Size<Option<i32>> {
    if w.spec_weight() > 0 {
        orient_size_of(Some(weighted_area_width(weight_width, weight_width_rem, rem_count, w.spec_weight())), Some(max_height), orient)
    } else {
        orient_size_of(Some(orient_margin_width(w, orient)), Some(max_height), orient)
    }
}

/// The widgets after the third pass of `update_size`, which sizes the filling widgets again for
/// their final areas.
pub open spec fn third_pass_of<W: Widget>(second: Seq<W>, theme: &W::Theme, weight_width: i32, weight_width_rem: i32, area_size2: Size<Option<i32>>, orient: Orient) -> Seq<W> {
    Seq::new(second.len(), |j: int| {
        let w = second[j];
        if fills_unbounded(w, area_size2) {
            w.spec_updated_size(theme, third_pass_area(w, weight_width, weight_width_rem, rem_count_of(second.subrange(0, j)), max_widget_height_of(second, orient), orient))
        } else {
            w
        }
    })
}

/// The widgets of a layout after the first pass of `update_size`.
pub open spec fn layout_first_pass<W: Widget>(ws: Seq<W>, theme: &W::Theme, area_size: Size<Option<i32>>, orient: Orient, preferred_size: Size<Option<i32>>) -> Seq<W> {
    first_pass_of(ws, theme, bounded_area_size(area_size, preferred_size), orient)
}

/// The widgets of a layout after the second pass of `update_size`.
pub open spec fn layout_second_pass<W: Widget>(ws: Seq<W>, theme: &W::Theme, area_size: Size<Option<i32>>, orient: Orient, preferred_size: Size<Option<i32>>) -> Seq<W> {
    let area_size2 = bounded_area_size(area_size, preferred_size);
    let first = first_pass_of(ws, theme, area_size2, orient);
    second_pass_of(first, theme, weight_division_of(first, area_size2, weight_total(ws), orient), area_size2, orient)
}

/// The width per weight unit and its remainder that `update_size` computes for a layout.
pub open spec fn layout_weight_width<W: Widget>(
    ws: Seq<W>,
    theme: &W::Theme,
    area_size: Size<Option<i32>>,
    orient: Orient,
    h_align: HAlign,
    v_align: VAlign,
    preferred_size: Size<Option<i32>>,
) -> (i32, i32) {
    weight_width_of(
        area_size,
        orient,
        h_align,
        v_align,
        preferred_size,
        layout_first_pass(ws, theme, area_size, orient, preferred_size),
        weight_total(ws),
        max_weight_width_of(layout_second_pass(ws, theme, area_size, orient, preferred_size), orient),
    )
}

/// The widgets of a layout as `update_size` leaves them.
pub open spec fn layout_sized_widgets<W: Widget>(
    ws: Seq<W>,
    theme: &W::Theme,
    area_size: Size<Option<i32>>,
    orient: Orient,
    h_align: HAlign,
    v_align: VAlign,
    preferred_size: Size<Option<i32>>,
) -> Seq<W> {
    let area_size2 = bounded_area_size(area_size, preferred_size);
    let second = layout_second_pass(ws, theme, area_size, orient, preferred_size);
    let ww = layout_weight_width(ws, theme, area_size, orient, h_align, v_align, preferred_size);
    if area_size2.width is None || area_size2.height is None {
        third_pass_of(second, theme, ww.0, ww.1, area_size2, orient)
    } else {
        second
    }
}

/// The width of the widget in its area along the orientation: its share of the weight width,
/// with one more unit per weight unit while the remainder lasts.
pub open spec fn weighted_area_width(weight_width: i32, weight_width_rem: i32, rem_count: i32, weight: u32) -> i32 {
    let w = weight_width.wrapping_mul(weight as i32);
    if rem_count.wrapping_add(weight as i32) <= weight_width_rem {
        w.wrapping_add(weight as i32)
    } else if rem_count < weight_width_rem {
        w.wrapping_add(weight_width_rem).wrapping_sub(rem_count)
    } else {
        w
    }
}

/// The sum of the weights as an `i32`, wrapping around on overflow.
pub open spec fn rem_count_of<W: Widget>(ws: Seq<W>) -> i32
    decreases ws.len(),
{
    if ws.len() == 0 {
        0
    } else {
        let c = rem_count_of(ws.drop_last());
        if ws.last().spec_weight() > 0 {
            c.wrapping_add(ws.last().spec_weight() as i32)
        } else {
            c
        }
    }
}

/// The width of the area of the widget along the orientation in `update_pos`.
pub open spec fn area_width_in_row<W: Widget>(ws: Seq<W>, i: int, weight_width: i32, weight_width_rem: i32, orient: Orient) -> i32 {
    let w = ws[i];
    if w.spec_weight() > 0 {
        weighted_area_width(weight_width, weight_width_rem, rem_count_of(ws.subrange(0, i)), w.spec_weight())
    } else {
        orient_margin_width(w, orient)
    }
}

/// The coordinate along the orientation where the area of the widget starts, for a row that
/// starts at `x0`.
pub open spec fn row_x<W: Widget>(ws: Seq<W>, i: int, x0: i32, weight_width: i32, weight_width_rem: i32, orient: Orient) -> i32
    decreases i,
{
    if i <= 0 {
        x0
    } else {
        row_x(ws, i - 1, x0, weight_width, weight_width_rem, orient).wrapping_add(
            area_width_in_row(ws, i - 1, weight_width, weight_width_rem, orient),
        )
    }
}

/// The area bounds that `update_pos` gives to the widget.
pub open spec fn widget_area_bounds_of<W: Widget>(
    ws: Seq<W>,
    i: int,
    zero_weight_width_sum: i32,
    weight_sum: u32,
    weight_width: i32,
    weight_width_rem: i32,
    area_bounds: Rect<i32>,
    orient: Orient,
    h_align: HAlign,
    v_align: VAlign,
    preferred_size: Size<Option<i32>>,
) -> Rect<i32> {
    let size = layout_size_of(ws, zero_weight_width_sum, weight_sum, weight_width, weight_width_rem,
        Size { width: Some(area_bounds.width), height: Some(area_bounds.height) }, orient, h_align, v_align, preferred_size);
    let pos = pos_for_align_of(size, area_bounds, h_align, v_align);
    orient_rect_of(
        row_x(ws, i, orient_x_of(pos, orient), weight_width, weight_width_rem, orient),
        orient_y_of(pos, orient),
        area_width_in_row(ws, i, weight_width, weight_width_rem, orient),
        orient_height_of(size, orient),
        orient,
    )
}

proof fn lemma_weight_total_same<W: Widget>(a: Seq<W>, b: Seq<W>)
    requires
        same_weights(a, b),
    ensures
        weight_total(a) == weight_total(b),
    decreases a.len(),
{
    if a.len() > 0 {
        assert(a[a.len() - 1].spec_weight() == b[b.len() - 1].spec_weight());
        lemma_weight_total_same(a.drop_last(), b.drop_last());
    }
}

/// A linear layout of widgets.
///
/// The widgets without weight take their own widths; the weighted widgets share the width per
/// weight unit, and the remainder of the division goes to the first weighted widgets one unit
/// per weight unit.
pub struct LinearLayoutWidgets<W> {
    pub widgets: Vec<W>,
    pub zero_weight_width_sum: i32,
    pub weight_sum: u32,
    pub weight_width: i32,
    pub weight_width_rem: i32,
}

impl<W: Widget> LinearLayoutWidgets<W> {
    pub fn new() -> (r: Self)
        ensures
            r.widgets@ == Seq::<W>::empty(),
            r.zero_weight_width_sum == 0,
            r.weight_sum == 0,
            r.weight_width == 0,
            r.weight_width_rem == 0,
    {
        LinearLayoutWidgets {
            widgets: Vec::new(),
            zero_weight_width_sum: 0,
            weight_sum: 0,
            weight_width: 0,
            weight_width_rem: 0,
        }
    }

    /// Adds a widget at the end and returns its widget index pair.
    pub fn add_dyn(&mut self, widget: W) -> (r: Option<WidgetIndexPair>)
        ensures
            final(self).widgets@ == old(self).widgets@.push(widget),
            r == Some(WidgetIndexPair(old(self).widgets@.len() as usize, 0)),
            final(self).zero_weight_width_sum == old(self).zero_weight_width_sum,
            final(self).weight_sum == old(self).weight_sum,
            final(self).weight_width == old(self).weight_width,
            final(self).weight_width_rem == old(self).weight_width_rem,
    {
        let i = self.widgets.len();
        self.widgets.push(widget);
        Some(WidgetIndexPair(i, 0))
    }

    /// Inserts a widget before the widget with the widget index pair, or at the end for the
    /// pair after the last widget.
    pub fn insert_dyn(&mut self, idx_pair: WidgetIndexPair, widget: W) -> (r: Option<WidgetIndexPair>)
        ensures
            idx_pair.1 == 0 && idx_pair.0 <= old(self).widgets@.len() ==> {
                &&& r == Some(idx_pair)
                &&& final(self).widgets@ == old(self).widgets@.insert(idx_pair.0 as int, widget)
            },
            !(idx_pair.1 == 0 && idx_pair.0 <= old(self).widgets@.len()) ==> {
                &&& r is None
                &&& final(self).widgets@ == old(self).widgets@
            },
            final(self).zero_weight_width_sum == old(self).zero_weight_width_sum,
            final(self).weight_sum == old(self).weight_sum,
            final(self).weight_width == old(self).weight_width,
            final(self).weight_width_rem == old(self).weight_width_rem,
    {
        if idx_pair.1 == 0 {
            let i = idx_pair.0;
            if i <= self.widgets.len() {
                self.widgets.insert(i, widget);
                Some(idx_pair)
            } else {
                None
            }
        } else {
            None
        }
    }

    /// Removes the widget with the widget index pair and returns it.
    pub fn remove(&mut self, idx_pair: WidgetIndexPair) -> (r: Option<W>)
        ensures
            idx_pair.1 == 0 && idx_pair.0 < old(self).widgets@.len() ==> {
                &&& r == Some(old(self).widgets@[idx_pair.0 as int])
                &&& final(self).widgets@ == old(self).widgets@.remove(idx_pair.0 as int)
            },
            !(idx_pair.1 == 0 && idx_pair.0 < old(self).widgets@.len()) ==> {
                &&& r is None
                &&& final(self).widgets@ == old(self).widgets@
            },
            final(self).zero_weight_width_sum == old(self).zero_weight_width_sum,
            final(self).weight_sum == old(self).weight_sum,
            final(self).weight_width == old(self).weight_width,
            final(self).weight_width_rem == old(self).weight_width_rem,
    {
        if idx_pair.1 == 0 {
            let i = idx_pair.0;
            if i < self.widgets.len() {
                Some(self.widgets.remove(i))
            } else {
                None
            }
        } else {
            None
        }
    }

    /// Removes the last widget and returns it.
    pub fn remove_last(&mut self) -> (r: Option<W>)
        ensures
            old(self).widgets@.len() > 0 ==> {
                &&& r == Some(old(self).widgets@.last())
                &&& final(self).widgets@ == old(self).widgets@.drop_last()
            },
            old(self).widgets@.len() == 0 ==> r is None && final(self).widgets@ == old(self).widgets@,
            final(self).zero_weight_width_sum == old(self).zero_weight_width_sum,
            final(self).weight_sum == old(self).weight_sum,
            final(self).weight_width == old(self).weight_width,
            final(self).weight_width_rem == old(self).weight_width_rem,
    {
        self.widgets.pop()
    }

    /// Returns the widget index pair before the given one, or the last one for `None`.
    pub fn prev(&self, idx_pair: Option<WidgetIndexPair>) -> (r: Option<WidgetIndexPair>)
        ensures
            r == layout_prev(self.widgets@.len(), idx_pair),
    {
        match idx_pair {
            None => {
                if self.widgets.len() > 0 {
                    Some(WidgetIndexPair(self.widgets.len() - 1, 0))
                } else {
                    None
                }
            },
            Some(WidgetIndexPair(i, 0)) => {
                if i > 0 && i - 1 < self.widgets.len() {
                    Some(WidgetIndexPair(i - 1, 0))
                } else {
                    None
                }
            },
            _ => None,
        }
    }

    /// Returns the widget index pair after the given one, or the first one for `None`.
    pub fn next(&self, idx_pair: Option<WidgetIndexPair>) -> (r: Option<WidgetIndexPair>)
        ensures
            r == layout_next(self.widgets@.len(), idx_pair),
    {
        match idx_pair {
            None => {
                if self.widgets.len() > 0 {
                    Some(WidgetIndexPair(0, 0))
                } else {
                    None
                }
            },
            Some(WidgetIndexPair(i, 0)) => {
                let n = self.widgets.len();
                if i < n && i + 1 < n {
                    Some(WidgetIndexPair(i + 1, 0))
                } else {
                    None
                }
            },
            _ => None,
        }
    }

    /// Returns the widget for the widget index pair or `None`.
    pub fn dyn_widget(&self, idx_pair: WidgetIndexPair) -> (r: Option<&W>)
        ensures
            match r {
                Some(w) => layout_child(self.widgets@, idx_pair) == Some(*w),
                None => layout_child(self.widgets@, idx_pair) is None,
            },
    {
        if idx_pair.1 == 0 && idx_pair.0 < self.widgets.len() {
            Some(&self.widgets[idx_pair.0])
        } else {
            None
        }
    }

    /// Returns the mutable widget for the widget index pair or `None`.
    pub fn dyn_widget_mut(&mut self, idx_pair: WidgetIndexPair) -> (r: Option<&mut W>)
        ensures
            match r {
                Some(w) => {
                    &&& layout_child(old(self).widgets@, idx_pair) == Some(*w)
                    &&& final(self).widgets@ == old(self).widgets@.update(idx_pair.0 as int, *final(w))
                },
                None => {
                    &&& layout_child(old(self).widgets@, idx_pair) is None
                    &&& final(self).widgets@ == old(self).widgets@
                },
            },
            final(self).zero_weight_width_sum == old(self).zero_weight_width_sum,
            final(self).weight_sum == old(self).weight_sum,
            final(self).weight_width == old(self).weight_width,
            final(self).weight_width_rem == old(self).weight_width_rem,
    {
        if idx_pair.1 == 0 && idx_pair.0 < self.widgets.len() {
            Some(&mut self.widgets[idx_pair.0])
        } else {
            None
        }
    }

    /// Returns the greatest margin height of the widgets across the orientation, or zero.
    pub fn max_widget_height(&self, orient: Orient) -> (r: i32)
        ensures
            r == max_widget_height_of(self.widgets@, orient),
    {
        let mut m: i32 = 0;
        let mut i: usize = 0;
        while i < self.widgets.len()
            invariant
                i <= self.widgets@.len(),
                m == max_widget_height_of(self.widgets@.subrange(0, i as int), orient),
            decreases self.widgets@.len() - i,
        {
            proof {
                assert(self.widgets@.subrange(0, i + 1).drop_last() =~= self.widgets@.subrange(0, i as int));
            }
            let h = orient_size_height(self.widgets[i].margin_size(), orient);
            if h > m {
                m = h;
            }
            i = i + 1;
        }
        proof {
            assert(self.widgets@.subrange(0, i as int) =~= self.widgets@);
        }
        m
    }

    /// Returns the size of the layout for the area size, the orientation, the alignments and the
    /// preferred size, from the fields that `update_size` computed.
    pub fn size(&self, area_size: Size<Option<i32>>, orient: Orient, h_align: HAlign, v_align: VAlign, preferred_size: Size<Option<i32>>) -> (r: Size<i32>)
        ensures
            r == layout_size_of(self.widgets@, self.zero_weight_width_sum, self.weight_sum, self.weight_width, self.weight_width_rem, area_size, orient, h_align, v_align, preferred_size),
    {
        let width_sum = self.zero_weight_width_sum.wrapping_add(self.weight_width.wrapping_mul(self.weight_sum as i32)).wrapping_add(self.weight_width_rem);
        let width = match orient {
            Orient::Horizontal => {
                let area_width2 = min_opt_width_for_opt_width(area_size.width, preferred_size.width);
                if preferred_size.width.is_none() {
                    width_for_h_align(width_sum, area_width2, h_align)
                } else {
                    match area_width2 {
                        Some(w) => w,
                        None => width_sum,
                    }
                }
            },
            Orient::Vertical => {
                let area_height2 = min_opt_height_for_opt_height(area_size.height, preferred_size.height);
                if preferred_size.height.is_none() {
                    height_for_v_align(width_sum, area_height2, v_align)
                } else {
                    match area_height2 {
                        Some(h) => h,
                        None => width_sum,
                    }
                }
            },
        };
        let max_height = self.max_widget_height(orient);
        let height = match orient {
            Orient::Horizontal => {
                let area_height2 = min_opt_height_for_opt_height(area_size.height, preferred_size.height);
                if preferred_size.height.is_none() {
                    height_for_v_align(max_height, area_height2, v_align)
                } else {
                    match area_height2 {
                        Some(h) => h,
                        None => max_height,
                    }
                }
            },
            Orient::Vertical => {
                let area_width2 = min_opt_width_for_opt_width(area_size.width, preferred_size.width);
                if preferred_size.width.is_none() {
                    width_for_h_align(max_height, area_width2, h_align)
                } else {
                    match area_width2 {
                        Some(w) => w,
                        None => max_height,
                    }
                }
            },
        };
        orient_size(width, height, orient)
    }

    /// Computes the sizes of the widgets and the fields for the area size.
    ///
    /// The first pass sizes the widgets without weight one after another, each for the width
    /// that the earlier ones left, and sums their widths and the weights. The width that is
    /// left is divided by the weight sum into the width per weight unit. The second pass sizes
    /// the weighted widgets for their shares; the width per weight unit then shrinks to the
    /// widest weighted widget where the alignment allows it. For an unbounded area side, a
    /// third pass sizes the filling widgets again for their final areas.
    #[verifier::rlimit(40)]
    pub fn update_size(
        &mut self,
        theme: &W::Theme,
        area_size: Size<Option<i32>>,
        orient: Orient,
        h_align: HAlign,
        v_align: VAlign,
        preferred_size: Size<Option<i32>>,
    )
        ensures
            final(self).widgets@ == layout_sized_widgets(old(self).widgets@, theme, area_size, orient, h_align, v_align, preferred_size),
            final(self).zero_weight_width_sum
                == zero_weight_width_total(layout_first_pass(old(self).widgets@, theme, area_size, orient, preferred_size), orient),
            final(self).weight_sum == weight_total(old(self).widgets@),
            (final(self).weight_width, final(self).weight_width_rem)
                == layout_weight_width(old(self).widgets@, theme, area_size, orient, h_align, v_align, preferred_size),
            same_weights(final(self).widgets@, old(self).widgets@),
            same_weights(layout_first_pass(old(self).widgets@, theme, area_size, orient, preferred_size), old(self).widgets@),
    {
        let area_size2 = min_opt_size_for_opt_size(area_size, preferred_size);
        let mut widget_area_size = area_size2;
        proof {
            assert(area_size2 == bounded_area_size(area_size, preferred_size));
            assert(orient_size_of(orient_width_of(area_size2, orient), orient_height_of(area_size2, orient), orient) == area_size2);
            assert(old(self).widgets@.subrange(0, 0) =~= Seq::<W>::empty());
            assert(self.widgets@.subrange(0, 0) =~= Seq::<W>::empty());
        }
        self.zero_weight_width_sum = 0;
        self.weight_sum = 0;
        let n = self.widgets.len();
        let mut i: usize = 0;
        while i < n
            invariant
                n == self.widgets@.len(),
                n == old(self).widgets@.len(),
                i <= n,
                same_weights(self.widgets@, old(self).widgets@),
                self.widgets@.subrange(0, i as int) == first_pass_of(old(self).widgets@.subrange(0, i as int), theme, area_size2, orient),
                forall|j: int| i <= j < n ==> self.widgets@[j] == old(self).widgets@[j],
                self.zero_weight_width_sum == zero_weight_width_total(self.widgets@.subrange(0, i as int), orient),
                self.weight_sum == weight_total(self.widgets@.subrange(0, i as int)),
                widget_area_size == first_pass_area(self.widgets@.subrange(0, i as int), area_size2, orient),
                area_size2 == bounded_area_size(area_size, preferred_size),
            decreases n - i,
        {
            let ghost before = self.widgets@;
            let ghost before_area = widget_area_size;
            let widget_weight = self.widgets[i].weight();
            if widget_weight > 0 {
                self.weight_sum = self.weight_sum.wrapping_add(widget_weight);
            } else {
                self.widgets[i].update_size(theme, widget_area_size);
                let widget_width = orient_size_width(self.widgets[i].margin_size(), orient);
                self.zero_weight_width_sum = self.zero_weight_width_sum.wrapping_add(widget_width);
                match orient_size_width(widget_area_size, orient) {
                    Some(widget_area_width) => {
                        crate::utils::set_orient_size_width(&mut widget_area_size, Some(widget_area_width.wrapping_sub(widget_width)), orient);
                    },
                    None => {},
                }
            }
            proof {
                let os = old(self).widgets@;
                assert(os.subrange(0, i + 1).drop_last() =~= os.subrange(0, i as int));
                assert(os.subrange(0, i + 1).last() == os[i as int]);
                assert(self.widgets@.subrange(0, i + 1).drop_last() =~= self.widgets@.subrange(0, i as int));
                assert(self.widgets@.subrange(0, i as int) =~= before.subrange(0, i as int));
                assert(self.widgets@.subrange(0, i + 1).last() == self.widgets@[i as int]);
                assert(self.widgets@.subrange(0, i + 1) =~= self.widgets@.subrange(0, i as int).push(self.widgets@[i as int]));
                assert forall|j: int| 0 <= j < self.widgets@.len() implies {
                    &&& #[trigger] self.widgets@[j].spec_weight() == old(self).widgets@[j].spec_weight()
                    &&& self.widgets@[j].spec_h_align() == old(self).widgets@[j].spec_h_align()
                    &&& self.widgets@[j].spec_v_align() == old(self).widgets@[j].spec_v_align()
                } by {
                    if j != i {
                        assert(self.widgets@[j] == before[j]);
                    }
                }
            }
            i = i + 1;
        }
        proof {
            assert(self.widgets@.subrange(0, n as int) =~= self.widgets@);
            assert(old(self).widgets@.subrange(0, n as int) =~= old(self).widgets@);
            lemma_weight_total_same(self.widgets@, old(self).widgets@);
        }
        let ghost first = self.widgets@;
        let mut is_weight_width = false;
        match orient_size_width(widget_area_size, orient) {
            Some(widget_area_width) => {
                if self.weight_sum > 0 {
                    let d = self.weight_sum as i32;
                    self.weight_width = match widget_area_width.checked_div(d) {
                        Some(q) => q,
                        None => widget_area_width,
                    };
                    self.weight_width_rem = match widget_area_width.checked_rem(d) {
                        Some(r) => r,
                        None => 0,
                    };
                    is_weight_width = true;
                }
            },
            None => {},
        }
        let ghost division = weight_division_of(first, area_size2, weight_total(old(self).widgets@), orient);
        proof {
            if is_weight_width {
                assert(division == Some((self.weight_width, self.weight_width_rem)));
            } else {
                assert(division is None);
            }
        }
        let ghost second = second_pass_of(first, theme, division, area_size2, orient);
        let mut rem_count: i32 = 0;
        let mut max_weight_width: i32 = 0;
        let mut i: usize = 0;
        proof {
            assert(first.subrange(0, 0) =~= Seq::<W>::empty());
            assert(self.widgets@.subrange(0, 0) =~= Seq::<W>::empty());
        }
        while i < n
            invariant
                n == self.widgets@.len(),
                n == first.len(),
                i <= n,
                same_weights(self.widgets@, old(self).widgets@),
                same_weights(first, old(self).widgets@),
                second == second_pass_of(first, theme, division, area_size2, orient),
                forall|j: int| 0 <= j < i ==> self.widgets@[j] == second[j],
                forall|j: int| i <= j < n ==> self.widgets@[j] == first[j],
                rem_count == rem_count_of(first.subrange(0, i as int)),
                max_weight_width == max_weight_width_of(self.widgets@.subrange(0, i as int), orient),
                self.zero_weight_width_sum == zero_weight_width_total(first, orient),
                self.weight_sum == weight_total(old(self).widgets@),
                is_weight_width ==> division == Some((self.weight_width, self.weight_width_rem)),
                !is_weight_width ==> division is None,
                division == weight_division_of(first, area_size2, weight_total(old(self).widgets@), orient),
                orient_height_of(widget_area_size, orient) == orient_height_of(area_size2, orient),
                area_size2 == bounded_area_size(area_size, preferred_size),
            decreases n - i,
        {
            let ghost before = self.widgets@;
            let widget_weight = self.widgets[i].weight();
            if widget_weight > 0 {
                let mut area = if is_weight_width {
                    let mut a = orient_size(Some(self.weight_width.wrapping_mul(widget_weight as i32)), orient_size_height(widget_area_size, orient), orient);
                    match orient_size_width(a, orient) {
                        Some(widget_area_width) => {
                            if rem_count.wrapping_add(widget_weight as i32) <= self.weight_width_rem {
                                crate::utils::set_orient_size_width(&mut a, Some(widget_area_width.wrapping_add(widget_weight as i32)), orient);
                            } else if rem_count < self.weight_width_rem {
                                crate::utils::set_orient_size_width(&mut a, Some(widget_area_width.wrapping_add(self.weight_width_rem).wrapping_sub(rem_count)), orient);
                            }
                        },
                        None => {},
                    }
                    a
                } else {
                    orient_size(None, orient_size_height(area_size2, orient), orient)
                };
                proof {
                    assert(area == second_pass_area(division, rem_count, widget_weight, area_size2, orient));
                }
                self.widgets[i].update_size(theme, area);
                let widget_width = orient_size_width(self.widgets[i].margin_size(), orient);
                let q = match widget_width.checked_div(widget_weight as i32) {
                    Some(q) => q,
                    None => widget_width,
                };
                if q > max_weight_width {
                    max_weight_width = q;
                }
                rem_count = rem_count.wrapping_add(widget_weight as i32);
            }
            proof {
                assert(first.subrange(0, i + 1).drop_last() =~= first.subrange(0, i as int));
                assert(first.subrange(0, i + 1).last() == first[i as int]);
                assert(self.widgets@.subrange(0, i + 1).drop_last() =~= self.widgets@.subrange(0, i as int));
                assert(self.widgets@.subrange(0, i as int) =~= before.subrange(0, i as int));
                assert(self.widgets@.subrange(0, i + 1).last() == self.widgets@[i as int]);
                assert(self.widgets@[i as int] == second[i as int]);
                assert forall|j: int| 0 <= j < self.widgets@.len() implies {
                    &&& #[trigger] self.widgets@[j].spec_weight() == old(self).widgets@[j].spec_weight()
                    &&& self.widgets@[j].spec_h_align() == old(self).widgets@[j].spec_h_align()
                    &&& self.widgets@[j].spec_v_align() == old(self).widgets@[j].spec_v_align()
                } by {
                    if j != i {
                        assert(self.widgets@[j] == before[j]);
                    }
                }
            }
            i = i + 1;
        }
        proof {
            assert(self.widgets@.subrange(0, n as int) =~= self.widgets@);
            assert(self.widgets@ =~= second);
        }
        if is_weight_width {
            let shrinks = match orient {
                Orient::Horizontal => {
                    match h_align {
                        HAlign::Fill => false,
                        _ => preferred_size.width.is_none(),
                    }
                },
                Orient::Vertical => {
                    match v_align {
                        VAlign::Fill => false,
                        _ => preferred_size.height.is_none(),
                    }
                },
            };
            if shrinks && max_weight_width <= self.weight_width {
                self.weight_width = max_weight_width;
                self.weight_width_rem = 0;
            }
        } else {
            self.weight_width = max_weight_width;
            self.weight_width_rem = 0;
        }
        proof {
            assert((self.weight_width, self.weight_width_rem)
                == layout_weight_width(old(self).widgets@, theme, area_size, orient, h_align, v_align, preferred_size));
        }
        let ghost ww = self.weight_width;
        let ghost wr = self.weight_width_rem;
        if area_size2.width.is_none() || area_size2.height.is_none() {
            let ghost third = third_pass_of(second, theme, ww, wr, area_size2, orient);
            let mut rem_count: i32 = 0;
            let max_widget_height = self.max_widget_height(orient);
            let mut i: usize = 0;
            proof {
                assert(second.subrange(0, 0) =~= Seq::<W>::empty());
            }
            while i < n
                invariant
                    n == self.widgets@.len(),
                    n == second.len(),
                    i <= n,
                    same_weights(self.widgets@, old(self).widgets@),
                    same_weights(second, old(self).widgets@),
                    third == third_pass_of(second, theme, ww, wr, area_size2, orient),
                    forall|j: int| 0 <= j < i ==> self.widgets@[j] == third[j],
                    forall|j: int| i <= j < n ==> self.widgets@[j] == second[j],
                    rem_count == rem_count_of(second.subrange(0, i as int)),
                    max_widget_height == max_widget_height_of(second, orient),
                    self.zero_weight_width_sum == zero_weight_width_total(first, orient),
                    self.weight_width == ww,
                    self.weight_width_rem == wr,
                    self.weight_sum == weight_total(old(self).widgets@),
                decreases n - i,
            {
                let ghost before = self.widgets@;
                let widget_weight = self.widgets[i].weight();
                let mut area = if widget_weight > 0 {
                    let mut a = orient_size(Some(self.weight_width.wrapping_mul(widget_weight as i32)), Some(max_widget_height), orient);
                    match orient_size_width(a, orient) {
                        Some(widget_area_width) => {
                            if rem_count.wrapping_add(widget_weight as i32) <= self.weight_width_rem {
                                crate::utils::set_orient_size_width(&mut a, Some(widget_area_width.wrapping_add(widget_weight as i32)), orient);
                            } else if rem_count < self.weight_width_rem {
                                crate::utils::set_orient_size_width(&mut a, Some(widget_area_width.wrapping_add(self.weight_width_rem).wrapping_sub(rem_count)), orient);
                            }
                        },
                        None => {},
                    }
                    a
                } else {
                    orient_size(Some(orient_size_width(self.widgets[i].margin_size(), orient)), Some(max_widget_height), orient)
                };
                proof {
                    assert(area == third_pass_area(second[i as int], ww, wr, rem_count, max_widget_height, orient));
                    assert(second.subrange(0, i + 1).drop_last() =~= second.subrange(0, i as int));
                    assert(second.subrange(0, i + 1).last() == second[i as int]);
                }
                if widget_weight > 0 {
                    rem_count = rem_count.wrapping_add(widget_weight as i32);
                }
                let mut is_updating = false;
                match self.widgets[i].h_align() {
                    HAlign::Fill => is_updating = is_updating || area_size2.width.is_none(),
                    _ => {},
                }
                match self.widgets[i].v_align() {
                    VAlign::Fill => is_updating = is_updating || area_size2.height.is_none(),
                    _ => {},
                }
                proof {
                    assert(is_updating == fills_unbounded(second[i as int], area_size2));
                }
                if is_updating {
                    self.widgets[i].update_size(theme, area);
                }
                proof {
                    assert(self.widgets@[i as int] == third[i as int]);
                    assert forall|j: int| 0 <= j < self.widgets@.len() implies {
                        &&& #[trigger] self.widgets@[j].spec_weight() == old(self).widgets@[j].spec_weight()
                        &&& self.widgets@[j].spec_h_align() == old(self).widgets@[j].spec_h_align()
                        &&& self.widgets@[j].spec_v_align() == old(self).widgets@[j].spec_v_align()
                    } by {
                        assert(before[j].spec_weight() == old(self).widgets@[j].spec_weight());
                        if j != i {
                            assert(self.widgets@[j] == before[j]);
                        }
                    }
                }
                i = i + 1;
            }
            proof {
                assert(self.widgets@ =~= third);
            }
        }
    }

    /// Returns the area bounds that `update_pos` gives to each widget.
    ///
    /// The widgets are laid out one after another from the position of the layout size aligned
    /// in the area bounds; a weighted widget gets its share of the width per weight unit and a
    /// widget without weight gets its margin width.
    pub fn widget_area_bounds(&self, area_bounds: Rect<i32>, orient: Orient, h_align: HAlign, v_align: VAlign, preferred_size: Size<Option<i32>>) -> (r: Vec<Rect<i32>>)
        ensures
            r@.len() == self.widgets@.len(),
            forall|i: int| 0 <= i < r@.len() ==> #[trigger] r@[i] == widget_area_bounds_of(
                self.widgets@, i, self.zero_weight_width_sum, self.weight_sum, self.weight_width, self.weight_width_rem,
                area_bounds, orient, h_align, v_align, preferred_size),
    {
        let size = self.size(Size::new(Some(area_bounds.width), Some(area_bounds.height)), orient, h_align, v_align, preferred_size);
        let pos = pos_for_h_align_and_v_align(size, area_bounds, h_align, v_align);
        let ghost x0 = orient_x_of(pos, orient);
        let mut x = orient_pos_x(pos, orient);
        let y = orient_pos_y(pos, orient);
        let height = orient_size_height(size, orient);
        let mut rem_count: i32 = 0;
        let mut r: Vec<Rect<i32>> = Vec::new();
        let n = self.widgets.len();
        let mut i: usize = 0;
        while i < n
            invariant
                n == self.widgets@.len(),
                i <= n,
                r@.len() == i,
                x == row_x(self.widgets@, i as int, x0, self.weight_width, self.weight_width_rem, orient),
                rem_count == rem_count_of(self.widgets@.subrange(0, i as int)),
                y == orient_y_of(pos, orient),
                height == orient_height_of(size, orient),
                size == layout_size_of(self.widgets@, self.zero_weight_width_sum, self.weight_sum, self.weight_width, self.weight_width_rem,
                    Size { width: Some(area_bounds.width), height: Some(area_bounds.height) }, orient, h_align, v_align, preferred_size),
                pos == pos_for_align_of(size, area_bounds, h_align, v_align),
                x0 == orient_x_of(pos, orient),
                forall|j: int| 0 <= j < i ==> #[trigger] r@[j] == widget_area_bounds_of(
                    self.widgets@, j, self.zero_weight_width_sum, self.weight_sum, self.weight_width, self.weight_width_rem,
                    area_bounds, orient, h_align, v_align, preferred_size),
            decreases n - i,
        {
            let widget_weight = self.widgets[i].weight();
            let width = if widget_weight > 0 {
                let w = self.weight_width.wrapping_mul(widget_weight as i32);
                if rem_count.wrapping_add(widget_weight as i32) <= self.weight_width_rem {
                    w.wrapping_add(widget_weight as i32)
                } else if rem_count < self.weight_width_rem {
                    w.wrapping_add(self.weight_width_rem).wrapping_sub(rem_count)
                } else {
                    w
                }
            } else {
                orient_size_width(self.widgets[i].margin_size(), orient)
            };
            proof {
                assert(self.widgets@.subrange(0, i + 1).drop_last() =~= self.widgets@.subrange(0, i as int));
                assert(self.widgets@.subrange(0, i + 1).last() == self.widgets@[i as int]);
                assert(width == area_width_in_row(self.widgets@, i as int, self.weight_width, self.weight_width_rem, orient));
            }
            r.push(orient_rect(x, y, width, height, orient));
            if widget_weight > 0 {
                rem_count = rem_count.wrapping_add(widget_weight as i32);
            }
            x = x.wrapping_add(width);
            i = i + 1;
        }
        r
    }

    /// Computes the positions of the widgets in the area bounds; each widget gets the area
    /// bounds that `widget_area_bounds` gives.
    pub fn update_pos(&mut self, theme: &W::Theme, area_bounds: Rect<i32>, orient: Orient, h_align: HAlign, v_align: VAlign, preferred_size: Size<Option<i32>>)
        ensures
            same_weights(final(self).widgets@, old(self).widgets@),
            forall|i: int| 0 <= i < final(self).widgets@.len() ==> #[trigger] final(self).widgets@[i] == old(self).widgets@[i].spec_updated_pos(
                theme,
                widget_area_bounds_of(old(self).widgets@, i, old(self).zero_weight_width_sum, old(self).weight_sum, old(self).weight_width,
                    old(self).weight_width_rem, area_bounds, orient, h_align, v_align, preferred_size),
            ),
            final(self).zero_weight_width_sum == old(self).zero_weight_width_sum,
            final(self).weight_sum == old(self).weight_sum,
            final(self).weight_width == old(self).weight_width,
            final(self).weight_width_rem == old(self).weight_width_rem,
    {
        let bounds = self.widget_area_bounds(area_bounds, orient, h_align, v_align, preferred_size);
        let n = self.widgets.len();
        let mut i: usize = 0;
        while i < n
            invariant
                n == self.widgets@.len(),
                bounds@.len() == n,
                i <= n,
                same_weights(self.widgets@, old(self).widgets@),
                self.zero_weight_width_sum == old(self).zero_weight_width_sum,
                self.weight_sum == old(self).weight_sum,
                self.weight_width == old(self).weight_width,
                self.weight_width_rem == old(self).weight_width_rem,
                forall|j: int| 0 <= j < bounds@.len() ==> #[trigger] bounds@[j] == widget_area_bounds_of(
                    old(self).widgets@, j, old(self).zero_weight_width_sum, old(self).weight_sum, old(self).weight_width,
                    old(self).weight_width_rem, area_bounds, orient, h_align, v_align, preferred_size),
                forall|j: int| 0 <= j < i ==> #[trigger] self.widgets@[j] == old(self).widgets@[j].spec_updated_pos(theme, bounds@[j]),
                forall|j: int| i <= j < n ==> #[trigger] self.widgets@[j] == old(self).widgets@[j],
            decreases n - i,
        {
            self.widgets[i].update_pos(theme, bounds[i]);
            i = i + 1;
        }
    }
}

/// The widget index pair before the given one in a layout of `len` widgets.
pub open spec fn layout_prev(len: nat, idx_pair: Option<WidgetIndexPair>) -> Option<WidgetIndexPair> {
    match idx_pair {
        None => if len > 0 { Some(WidgetIndexPair((len - 1) as usize, 0)) } else { None },
        Some(WidgetIndexPair(i, j)) => {
            if j == 0 && 0 < i && i - 1 < len {
                Some(WidgetIndexPair((i - 1) as usize, 0))
            } else {
                None
            }
        },
    }
}

/// The widget index pair after the given one in a layout of `len` widgets.
pub open spec fn layout_next(len: nat, idx_pair: Option<WidgetIndexPair>) -> Option<WidgetIndexPair> {
    match idx_pair {
        None => if len > 0 { Some(WidgetIndexPair(0, 0)) } else { None },
        Some(WidgetIndexPair(i, j)) => {
            if j == 0 && i + 1 < len {
                Some(WidgetIndexPair((i + 1) as usize, 0))
            } else {
                None
            }
        },
    }
}

/// The widget of a layout for the widget index pair.
pub open spec fn layout_child<W>(ws: Seq<W>, idx_pair: WidgetIndexPair) -> Option<W> {
    if idx_pair.1 == 0 && idx_pair.0 < ws.len() {
        Some(ws[idx_pair.0 as int])
    } else {
        None
    }
}

/// The length of a layout along or across the orientation: without a preferred length, the
/// length for the alignment in the area; with it, the lesser of the area and preferred lengths.
pub open spec fn layout_len(len: i32, area_len: Option<i32>, preferred_len: Option<i32>, is_fill: bool) -> i32 {
    let area_len2 = min_opt_of(area_len, preferred_len);
    if preferred_len is None {
        len_for_align(len, area_len2, is_fill)
    } else {
        match area_len2 {
            Some(a) => a,
            None => len,
        }
    }
}

/// The size of a layout.
pub open spec fn layout_size_of<W: Widget>(
    ws: Seq<W>,
    zero_weight_width_sum: i32,
    weight_sum: u32,
    weight_width: i32,
    weight_width_rem: i32,
    area_size: Size<Option<i32>>,
    orient: Orient,
    h_align: HAlign,
    v_align: VAlign,
    preferred_size: Size<Option<i32>>,
) -> Size<i32> {
    let width_sum = zero_weight_width_sum.wrapping_add(weight_width.wrapping_mul(weight_sum as i32)).wrapping_add(weight_width_rem);
    let max_height = max_widget_height_of(ws, orient);
    match orient {
        Orient::Horizontal => Size {
            width: layout_len(width_sum, area_size.width, preferred_size.width, h_align == HAlign::Fill),
            height: layout_len(max_height, area_size.height, preferred_size.height, v_align == VAlign::Fill),
        },
        Orient::Vertical => Size {
            width: layout_len(max_height, area_size.width, preferred_size.width, h_align == HAlign::Fill),
            height: layout_len(width_sum, area_size.height, preferred_size.height, v_align == VAlign::Fill),
        },
    }
}

/// The sum of the weights, without wrapping around.
pub open spec fn weight_sum_int<W: Widget>(ws: Seq<W>) -> int
    decreases ws.len(),
{
    if ws.len() == 0 {
        0
    } else {
        weight_sum_int(ws.drop_last()) + ws.last().spec_weight()
    }
}

/// The sum of the widths of the areas of the weighted widgets among the first `n` widgets in
/// `update_pos`.
pub open spec fn weighted_widths_total<W: Widget>(ws: Seq<W>, n: int, weight_width: i32, weight_width_rem: i32) -> int
    decreases n,
{
    if n <= 0 {
        0
    } else {
        let prev = weighted_widths_total(ws, n - 1, weight_width, weight_width_rem);
        if ws[n - 1].spec_weight() > 0 {
            prev + weighted_area_width(weight_width, weight_width_rem, rem_count_of(ws.subrange(0, n - 1)), ws[n - 1].spec_weight())
        } else {
            prev
        }
    }
}

proof fn lemma_weight_sum_int_nonneg<W: Widget>(ws: Seq<W>)
    ensures
        weight_sum_int(ws) >= 0,
    decreases ws.len(),
{
    if ws.len() > 0 {
        lemma_weight_sum_int_nonneg(ws.drop_last());
    }
}

/// The sum of the weights of a prefix is at most the sum of all the weights.
proof fn lemma_weight_sum_int_prefix<W: Widget>(ws: Seq<W>, n: int)
    requires
        0 <= n <= ws.len(),
    ensures
        0 <= weight_sum_int(ws.subrange(0, n)) <= weight_sum_int(ws),
    decreases ws.len() - n,
{
    lemma_weight_sum_int_nonneg(ws.subrange(0, n));
    if n < ws.len() {
        lemma_weight_sum_int_prefix(ws, n + 1);
        assert(ws.subrange(0, n + 1).drop_last() =~= ws.subrange(0, n));
    } else {
        assert(ws.subrange(0, n) =~= ws);
    }
}

/// Without overflow, the count of `update_pos` is the sum of the weights.
proof fn lemma_rem_count_exact<W: Widget>(ws: Seq<W>)
    requires
        weight_sum_int(ws) <= i32::MAX,
    ensures
        rem_count_of(ws) as int == weight_sum_int(ws),
    decreases ws.len(),
{
    if ws.len() > 0 {
        lemma_weight_sum_int_nonneg(ws.drop_last());
        lemma_rem_count_exact(ws.drop_last());
    }
}

proof fn lemma_weighted_widths_total<W: Widget>(ws: Seq<W>, n: int, ww: i32, wr: i32)
    requires
        0 <= n <= ws.len(),
        ww >= 0,
        wr >= 0,
        weight_sum_int(ws) <= i32::MAX,
        ww * weight_sum_int(ws) + wr <= i32::MAX,
    ensures
        weighted_widths_total(ws, n, ww, wr) == ww * weight_sum_int(ws.subrange(0, n))
            + if wr <= weight_sum_int(ws.subrange(0, n)) { wr as int } else { weight_sum_int(ws.subrange(0, n)) },
    decreases n,
{
    if n == 0 {
        assert(ws.subrange(0, 0) =~= Seq::<W>::empty());
        assert(ww * 0 == 0) by (nonlinear_arith);
    } else {
        lemma_weighted_widths_total(ws, n - 1, ww, wr);
        let a = ws.subrange(0, n - 1);
        let b = ws.subrange(0, n);
        assert(b.drop_last() =~= a);
        assert(b.last() == ws[n - 1]);
        let s = weight_sum_int(a);
        let w = ws[n - 1].spec_weight();
        let total = weight_sum_int(ws);
        lemma_weight_sum_int_prefix(ws, n);
        lemma_weight_sum_int_prefix(ws, n - 1);
        lemma_rem_count_exact(a);
        if w > 0 {
            assert(0 <= ww * w <= ww * total) by (nonlinear_arith)
                requires
                    ww >= 0,
                    0 < w <= total,
            ;
            assert(ww * s + ww * w == ww * (s + w)) by (nonlinear_arith);
            assert(ww * (s + w) <= ww * total) by (nonlinear_arith)
                requires
                    ww >= 0,
                    s + w <= total,
            ;
            assert((w as i32) as int == w);
            assert(ww.wrapping_mul(w as i32) as int == ww * w);
            assert(rem_count_of(a).wrapping_add(w as i32) as int == s + w);
        }
    }
}

/// The weighted widgets share the width exactly: where the width per weight unit and its
/// remainder come from a width `r` that the widgets without weight leave, as `update_size`
/// computes them, the areas that `update_pos` gives to the weighted widgets add up to `r`.
pub proof fn lemma_weighted_widths_fill<W: Widget>(ws: Seq<W>, r: i32)
    requires
        r >= 0,
        0 < weight_sum_int(ws) <= i32::MAX,
    ensures
        weighted_widths_total(ws, ws.len() as int, wrapping_quot(r, weight_sum_int(ws) as i32), wrapping_rem_of(r, weight_sum_int(ws) as i32)) == r,
{
    let total = weight_sum_int(ws);
    let d = total as i32;
    let ww = wrapping_quot(r, d);
    let wr = wrapping_rem_of(r, d);
    let ri = r as int;
    if ri == 0 {
        assert(ri % total == 0 && ri / total == 0) by (nonlinear_arith)
            requires
                total > 0,
                ri == 0,
        ;
    }
    assert(ww as int == ri / total);
    assert(wr as int == ri % total);
    assert(ri == total * (ri / total) + ri % total) by (nonlinear_arith)
        requires
            total > 0,
    ;
    assert(0 <= ri % total < total) by (nonlinear_arith)
        requires
            total > 0,
    ;
    assert(ri / total >= 0) by (nonlinear_arith)
        requires
            total > 0,
            ri >= 0,
    ;
    assert(ww * total == total * (ri / total)) by (nonlinear_arith)
        requires
            ww as int == ri / total,
    ;
    lemma_weighted_widths_total(ws, ws.len() as int, ww, wr);
    assert(ws.subrange(0, ws.len() as int) =~= ws);
}

/// The sum of the margin widths of the widgets without weight, without wrapping.
pub open spec fn zero_weight_width_int<W: Widget>(ws: Seq<W>, orient: Orient) -> int
    decreases ws.len(),
{
    if ws.len() == 0 {
        0
    } else {
        zero_weight_width_int(ws.drop_last(), orient)
            + if ws.last().spec_weight() == 0 { orient_margin_width(ws.last(), orient) as int } else { 0 }
    }
}

/// Where the widths are not negative and their sum fits, the width sum of the widgets without
/// weight is their exact sum, and the width that they leave of an area is the area width less
/// that sum.
pub proof fn lemma_zero_weight_widths_leave_rest<W: Widget>(area_width: i32, ws: Seq<W>, orient: Orient)
    requires
        area_width >= 0,
        forall|i: int| 0 <= i < ws.len() ==> #[trigger] orient_margin_width(ws[i], orient) >= 0,
        zero_weight_width_int(ws, orient) <= i32::MAX,
    ensures
        zero_weight_width_total(ws, orient) == zero_weight_width_int(ws, orient),
        remaining_width(area_width, ws, orient) == area_width - zero_weight_width_int(ws, orient),
        0 <= zero_weight_width_int(ws, orient),
    decreases ws.len(),
{
    if ws.len() > 0 {
        let init = ws.drop_last();
        assert forall|i: int| 0 <= i < init.len() implies #[trigger] orient_margin_width(init[i], orient) >= 0 by {
            assert(init[i] == ws[i]);
        }
        assert(orient_margin_width(ws[ws.len() - 1], orient) >= 0);
        lemma_zero_weight_widths_leave_rest(area_width, init, orient);
    }
}

/// A layout fills its area width exactly: where the widths of the widgets without weight are
/// not negative and leave a part of the area width, and the weights sum to a positive number
/// that fits, those widths and the areas that `update_pos` gives to the weighted widgets for
/// the width per weight unit and its remainder of the rest add up to the area width.
pub proof fn lemma_layout_fills_area_width<W: Widget>(area_width: i32, ws: Seq<W>, orient: Orient)
    requires
        forall|i: int| 0 <= i < ws.len() ==> #[trigger] orient_margin_width(ws[i], orient) >= 0,
        zero_weight_width_int(ws, orient) <= area_width,
        0 < weight_sum_int(ws) <= i32::MAX,
    ensures
        ({
            let r = remaining_width(area_width, ws, orient);
            let d = weight_sum_int(ws) as i32;
            zero_weight_width_total(ws, orient) + weighted_widths_total(ws, ws.len() as int, wrapping_quot(r, d), wrapping_rem_of(r, d))
                == area_width
        }),
{
    lemma_zero_weight_widths_nonnegative(ws, orient);
    lemma_zero_weight_widths_leave_rest(area_width, ws, orient);
    let r = remaining_width(area_width, ws, orient);
    lemma_weighted_widths_fill(ws, r);
}

/// The sum of non-negative widths is not negative.
proof fn lemma_zero_weight_widths_nonnegative<W: Widget>(ws: Seq<W>, orient: Orient)
    requires
        forall|i: int| 0 <= i < ws.len() ==> #[trigger] orient_margin_width(ws[i], orient) >= 0,
    ensures
        zero_weight_width_int(ws, orient) >= 0,
    decreases ws.len(),
{
    if ws.len() > 0 {
        let init = ws.drop_last();
        assert forall|i: int| 0 <= i < init.len() implies #[trigger] orient_margin_width(init[i], orient) >= 0 by {
            assert(init[i] == ws[i]);
        }
        assert(orient_margin_width(ws[ws.len() - 1], orient) >= 0);
        lemma_zero_weight_widths_nonnegative(init, orient);
    }
}

/// The sum of the margin widths along the orientation of the first `i` widgets of `sized`
/// whose widgets in `ws` have no weight.
pub open spec fn zero_weight_widths_before<W: Widget>(ws: Seq<W>, sized: Seq<W>, i: int, orient: Orient) -> int
    decreases i,
{
    if i <= 0 {
        0
    } else {
        zero_weight_widths_before(ws, sized, i - 1, orient)
            + if ws[i - 1].spec_weight() == 0 { orient_margin_width(sized[i - 1], orient) as int } else { 0 }
    }
}

proof fn lemma_first_pass_len<W: Widget>(ws: Seq<W>, theme: &W::Theme, area_size2: Size<Option<i32>>, orient: Orient)
    ensures
        first_pass_of(ws, theme, area_size2, orient).len() == ws.len(),
    decreases ws.len(),
{
    if ws.len() > 0 {
        lemma_first_pass_len(ws.drop_last(), theme, area_size2, orient);
    }
}

/// The first pass over a prefix of the widgets is the prefix of the first pass.
proof fn lemma_first_pass_prefix<W: Widget>(ws: Seq<W>, theme: &W::Theme, area_size2: Size<Option<i32>>, orient: Orient, k: int)
    requires
        0 <= k <= ws.len(),
    ensures
        first_pass_of(ws, theme, area_size2, orient).subrange(0, k) == first_pass_of(ws.subrange(0, k), theme, area_size2, orient),
    decreases ws.len(),
{
    lemma_first_pass_len(ws, theme, area_size2, orient);
    if k == ws.len() {
        assert(ws.subrange(0, k) =~= ws);
        assert(first_pass_of(ws, theme, area_size2, orient).subrange(0, k) =~= first_pass_of(ws, theme, area_size2, orient));
    } else {
        let init = ws.drop_last();
        lemma_first_pass_len(init, theme, area_size2, orient);
        lemma_first_pass_prefix(init, theme, area_size2, orient, k);
        assert(init.subrange(0, k) =~= ws.subrange(0, k));
        assert(first_pass_of(ws, theme, area_size2, orient).subrange(0, k)
            =~= first_pass_of(init, theme, area_size2, orient).subrange(0, k));
    }
}

proof fn lemma_zero_weight_widths_before_mono<W: Widget>(ws: Seq<W>, sized: Seq<W>, k: int, orient: Orient)
    requires
        0 <= k <= ws.len(),
        k <= sized.len(),
        forall|j: int| 0 <= j < k && ws[j].spec_weight() == 0 ==> #[trigger] orient_margin_width(sized[j], orient) >= 0,
    ensures
        forall|m: int| 0 <= m <= k ==> 0 <= #[trigger] zero_weight_widths_before(ws, sized, m, orient) <= zero_weight_widths_before(ws, sized, k, orient),
    decreases k,
{
    if k > 0 {
        lemma_zero_weight_widths_before_mono(ws, sized, k - 1, orient);
        if ws[k - 1].spec_weight() == 0 {
            assert(orient_margin_width(sized[k - 1], orient) >= 0);
        }
        assert(zero_weight_widths_before(ws, sized, k - 1, orient) <= zero_weight_widths_before(ws, sized, k, orient));
        assert forall|m: int| 0 <= m <= k implies 0 <= #[trigger] zero_weight_widths_before(ws, sized, m, orient)
            <= zero_weight_widths_before(ws, sized, k, orient) by {
            if m < k {
                assert(zero_weight_widths_before(ws, sized, m, orient) <= zero_weight_widths_before(ws, sized, k - 1, orient));
            }
        }
    } else {
        assert forall|m: int| 0 <= m <= k implies 0 <= #[trigger] zero_weight_widths_before(ws, sized, m, orient)
            <= zero_weight_widths_before(ws, sized, k, orient) by {
            assert(m == 0);
        }
    }
}

/// The width that the first `k` widgets after the first pass leave is the area width less the
/// margin widths of those without weight, where no difference wraps around.
proof fn lemma_remaining_width_exact<W: Widget>(a: i32, ws: Seq<W>, f: Seq<W>, k: int, orient: Orient)
    requires
        0 <= k <= ws.len(),
        k <= f.len(),
        forall|j: int| 0 <= j < k ==> #[trigger] f[j].spec_weight() == ws[j].spec_weight(),
        forall|j: int| 0 <= j < k && ws[j].spec_weight() == 0 ==> #[trigger] orient_margin_width(f[j], orient) >= 0,
        zero_weight_widths_before(ws, f, k, orient) <= a,
    ensures
        remaining_width(a, f.subrange(0, k), orient) == a - zero_weight_widths_before(ws, f, k, orient),
    decreases k,
{
    lemma_zero_weight_widths_before_mono(ws, f, k, orient);
    if k > 0 {
        lemma_remaining_width_exact(a, ws, f, k - 1, orient);
        assert(f.subrange(0, k).drop_last() =~= f.subrange(0, k - 1));
        assert(f.subrange(0, k).last() == f[k - 1]);
    }
}

/// The zero-weight widths before a position count the same widgets where the two sequences agree
/// on the widgets without weight.
proof fn lemma_zero_weight_widths_before_same<W: Widget>(ws: Seq<W>, s1: Seq<W>, s2: Seq<W>, k: int, orient: Orient)
    requires
        0 <= k <= ws.len(),
        forall|j: int| 0 <= j < k && ws[j].spec_weight() == 0 ==> #[trigger] s1[j] == s2[j],
    ensures
        zero_weight_widths_before(ws, s1, k, orient) == zero_weight_widths_before(ws, s2, k, orient),
    decreases k,
{
    if k > 0 {
        lemma_zero_weight_widths_before_same(ws, s1, s2, k - 1, orient);
    }
}

/// A widget without weight is sized for the width that the widgets without weight before it
/// leave: where the area is bounded on both sides, `update_size` gives the widget without weight
/// at position `i` an area whose width along the orientation is the area width less the margin
/// widths of the widgets without weight before it, and whose height is the area height, so that
/// the widgets without weight are laid out one after another in the area and do not overlap.
pub proof fn lemma_zero_weight_widget_sized_for_width_left<W: Widget>(
    ws: Seq<W>,
    theme: &W::Theme,
    area_size: Size<Option<i32>>,
    orient: Orient,
    h_align: HAlign,
    v_align: VAlign,
    preferred_size: Size<Option<i32>>,
    i: int,
)
    requires
        bounded_area_size(area_size, preferred_size).width is Some,
        bounded_area_size(area_size, preferred_size).height is Some,
        same_weights(layout_first_pass(ws, theme, area_size, orient, preferred_size), ws),
        0 <= i < ws.len(),
        ws[i].spec_weight() == 0,
        forall|j: int| 0 <= j < i && ws[j].spec_weight() == 0
            ==> #[trigger] orient_margin_width(layout_sized_widgets(ws, theme, area_size, orient, h_align, v_align, preferred_size)[j], orient) >= 0,
        zero_weight_widths_before(ws, layout_sized_widgets(ws, theme, area_size, orient, h_align, v_align, preferred_size), i, orient)
            <= orient_width_of(bounded_area_size(area_size, preferred_size), orient).unwrap(),
    ensures
        layout_sized_widgets(ws, theme, area_size, orient, h_align, v_align, preferred_size)[i] == ws[i].spec_updated_size(
            theme,
            orient_size_of(
                Some((orient_width_of(bounded_area_size(area_size, preferred_size), orient).unwrap()
                    - zero_weight_widths_before(ws, layout_sized_widgets(ws, theme, area_size, orient, h_align, v_align, preferred_size), i, orient)) as i32),
                orient_height_of(bounded_area_size(area_size, preferred_size), orient),
                orient,
            ),
        ),
{
    let area_size2 = bounded_area_size(area_size, preferred_size);
    let a = orient_width_of(area_size2, orient).unwrap();
    let first = first_pass_of(ws, theme, area_size2, orient);
    let s = layout_sized_widgets(ws, theme, area_size, orient, h_align, v_align, preferred_size);
    lemma_first_pass_len(ws, theme, area_size2, orient);
    assert(s == layout_second_pass(ws, theme, area_size, orient, preferred_size));
    assert forall|j: int| 0 <= j < ws.len() && ws[j].spec_weight() == 0 implies #[trigger] s[j] == first[j] by {
        assert(first[j].spec_weight() == ws[j].spec_weight());
    }
    lemma_zero_weight_widths_before_same(ws, s, first, i, orient);
    assert forall|j: int| 0 <= j < i && ws[j].spec_weight() == 0 implies #[trigger] orient_margin_width(first[j], orient) >= 0 by {
        assert(s[j] == first[j]);
    }
    assert forall|j: int| 0 <= j < i implies #[trigger] first[j].spec_weight() == ws[j].spec_weight() by {
    }
    lemma_remaining_width_exact(a, ws, first, i, orient);
    lemma_first_pass_prefix(ws, theme, area_size2, orient, i + 1);
    lemma_first_pass_prefix(ws, theme, area_size2, orient, i);
    let p = ws.subrange(0, i + 1);
    assert(p.drop_last() =~= ws.subrange(0, i));
    assert(p.last() == ws[i]);
    assert(p.drop_last() == ws.subrange(0, i));
    assert(first_pass_of(p, theme, area_size2, orient)
        == first_pass_of(ws.subrange(0, i), theme, area_size2, orient).push(
            ws[i].spec_updated_size(theme, first_pass_area(first_pass_of(ws.subrange(0, i), theme, area_size2, orient), area_size2, orient))));
    assert(first_pass_of(ws.subrange(0, i), theme, area_size2, orient) == first.subrange(0, i));
    assert(first_pass_area(first.subrange(0, i), area_size2, orient)
        == orient_size_of(Some(remaining_width(a, first.subrange(0, i), orient)), orient_height_of(area_size2, orient), orient));
    assert(first[i] == first.subrange(0, i + 1)[i]);
    assert(s[i] == first[i]);
    assert(first[i] == ws[i].spec_updated_size(theme, first_pass_area(first.subrange(0, i), area_size2, orient)));
    assert(remaining_width(a, first.subrange(0, i), orient) == a - zero_weight_widths_before(ws, first, i, orient));
    assert(zero_weight_widths_before(ws, s, i, orient) == zero_weight_widths_before(ws, first, i, orient));
    assert(((a - zero_weight_widths_before(ws, s, i, orient)) as i32) == remaining_width(a, first.subrange(0, i), orient));
}

/// `next` steps forward and `prev` steps backward through the widgets of a linear layout: the
/// pair that `next` gives has a greater index than the given one and the pair that `prev`
/// gives a lesser one, both within the layout.
pub proof fn lemma_layout_walk_moves(len: nat, idx_pair: Option<WidgetIndexPair>)
    requires
        len <= usize::MAX,
    ensures
        layout_next(len, idx_pair) matches Some(q) ==> {
            &&& q.0 < len && q.1 == 0
            &&& idx_pair matches Some(p) ==> p.0 < q.0
        },
        layout_prev(len, idx_pair) matches Some(q) ==> {
            &&& q.0 < len && q.1 == 0
            &&& idx_pair matches Some(p) ==> q.0 < p.0
        },
{
}

/// `prev` undoes `next` and `next` undoes `prev` between two widgets of a linear layout.
pub proof fn lemma_layout_prev_next_inverse(len: nat, i: usize)
    requires
        len <= usize::MAX,
    ensures
        i + 1 < len ==> layout_prev(len, layout_next(len, Some(WidgetIndexPair(i, 0)))) == Some(WidgetIndexPair(i, 0)),
        0 < i < len ==> layout_next(len, layout_prev(len, Some(WidgetIndexPair(i, 0)))) == Some(WidgetIndexPair(i, 0)),
{
}

/// Starting from `None`, `next` gives the widgets of a linear layout in order: after `k` steps
/// it gives the widget `k - 1`, and after the last widget it gives `None`.
pub open spec fn layout_next_iter(len: nat, k: nat) -> Option<WidgetIndexPair>
    decreases k,
{
    if k == 0 {
        None
    } else {
        layout_next(len, layout_next_iter(len, (k - 1) as nat))
    }
}

/// A walk with `next` from `None` visits every widget of a linear layout once, in order, and
/// then ends.
pub proof fn lemma_layout_next_visits_all(len: nat, k: nat)
    requires
        len <= usize::MAX,
    ensures
        1 <= k <= len ==> layout_next_iter(len, k) == Some(WidgetIndexPair((k - 1) as usize, 0)),
        k == len + 1 ==> layout_next_iter(len, k) is None,
    decreases k,
{
    if k > 0 {
        lemma_layout_next_visits_all(len, (k - 1) as nat);
    }
}

} // verus!
