//! The widget trait: what layouts, windows and focus navigation read from a widget.
use std::sync::atomic::AtomicBool;
use std::sync::Arc;
use vstd::prelude::*;
use crate::types::{HAlign, Pos, Rect, Size, VAlign, WidgetIndexPair, WidgetState};

verus! {

/// A widget.
///
/// A widget has margin bounds, which hold its bounds and its margins, a weight for linear
/// layouts, alignments, and a focus state. A widget that contains other widgets gives access to
/// them by widget index pairs and can be traversed with `prev` and `next`. The widget type of a
/// tree is one type; a tree of different widgets uses an enumeration of them.
///
/// The getters are observers of the widget: each one returns the value of its specification
/// function.
pub trait Widget: Sized {
    /// A theme that gives the styles which sizes depend on.
    type Theme;

    closed spec fn spec_margin_bounds(&self) -> Rect<i32> {
        arbitrary()
    }

    closed spec fn spec_bounds(&self) -> Rect<i32> {
        arbitrary()
    }

    closed spec fn spec_weight(&self) -> u32 {
        arbitrary()
    }

    closed spec fn spec_h_align(&self) -> HAlign {
        arbitrary()
    }

    closed spec fn spec_v_align(&self) -> VAlign {
        arbitrary()
    }

    /// The state of the widget under the pointer or the touch.
    closed spec fn spec_state(&self) -> WidgetState {
        arbitrary()
    }

    closed spec fn spec_is_focusable(&self) -> bool {
        arbitrary()
    }

    closed spec fn spec_is_focused(&self) -> bool {
        arbitrary()
    }

    /// Whether the widget accepts the focus or its loss in `set_focus`.
    closed spec fn spec_accepts_focus(&self, is_focused: bool) -> bool {
        arbitrary()
    }

    /// The child widget for the widget index pair.
    closed spec fn spec_child(&self, idx_pair: WidgetIndexPair) -> Option<Self> {
        arbitrary()
    }

    /// The widget index pair before the given one, or the last one for `None`.
    closed spec fn spec_prev(&self, idx_pair: Option<WidgetIndexPair>) -> Option<WidgetIndexPair> {
        arbitrary()
    }

    /// The widget index pair after the given one, or the first one for `None`.
    closed spec fn spec_next(&self, idx_pair: Option<WidgetIndexPair>) -> Option<WidgetIndexPair> {
        arbitrary()
    }

    /// The widget after `update_size` for the theme and the area size.
    closed spec fn spec_updated_size(&self, theme: &Self::Theme, area_size: Size<Option<i32>>) -> Self {
        arbitrary()
    }

    /// The widget after `update_pos` for the theme and the area bounds.
    closed spec fn spec_updated_pos(&self, theme: &Self::Theme, area_bounds: Rect<i32>) -> Self {
        arbitrary()
    }

    /// The widget after `set_change_flag_arc` with the flag.
    closed spec fn spec_with_change_flag(&self, flag_arc: Arc<AtomicBool>) -> Self {
        arbitrary()
    }

    /// The height of the widget tree under the widget: a child is lower than its parent.
    closed spec fn spec_rank(&self) -> nat {
        arbitrary()
    }

    /// The number of the positions of the children.
    closed spec fn spec_child_count(&self) -> nat {
        arbitrary()
    }

    /// The position of the child with the widget index pair among the children.
    closed spec fn spec_position(&self, idx_pair: WidgetIndexPair) -> nat {
        arbitrary()
    }

    fn margin_bounds(&self) -> (r: Rect<i32>)
        ensures
            r == self.spec_margin_bounds(),
    ;

    fn bounds(&self) -> (r: Rect<i32>)
        ensures
            r == self.spec_bounds(),
    ;

    fn weight(&self) -> (r: u32)
        ensures
            r == self.spec_weight(),
    ;

    fn h_align(&self) -> (r: HAlign)
        ensures
            r == self.spec_h_align(),
    ;

    fn v_align(&self) -> (r: VAlign)
        ensures
            r == self.spec_v_align(),
    ;

    fn state(&self) -> (r: WidgetState)
        ensures
            r == self.spec_state(),
    ;

    /// Sets the state under the pointer or the touch; the widget stays as it is otherwise for
    /// the layouts and focus navigation.
    fn set_state(&mut self, state: WidgetState)
        ensures
            final(self).spec_state() == state,
            final(self).spec_margin_bounds() == old(self).spec_margin_bounds(),
            final(self).spec_bounds() == old(self).spec_bounds(),
            final(self).spec_weight() == old(self).spec_weight(),
            final(self).spec_h_align() == old(self).spec_h_align(),
            final(self).spec_v_align() == old(self).spec_v_align(),
            final(self).spec_is_focusable() == old(self).spec_is_focusable(),
            final(self).spec_is_focused() == old(self).spec_is_focused(),
            forall|i: WidgetIndexPair| #[trigger] final(self).spec_child(i) == old(self).spec_child(i),
            forall|i: Option<WidgetIndexPair>| #[trigger] final(self).spec_prev(i) == old(self).spec_prev(i),
            forall|i: Option<WidgetIndexPair>| #[trigger] final(self).spec_next(i) == old(self).spec_next(i),
    ;

    fn is_focusable(&self) -> (r: bool)
        ensures
            r == self.spec_is_focusable(),
    ;

    fn is_focused(&self) -> (r: bool)
        ensures
            r == self.spec_is_focused(),
    ;

    /// Shares the change flag of a container: the widget and the widgets under it raise it
    /// when they change. The widget stays as it is otherwise.
    fn set_change_flag_arc(&mut self, flag_arc: Arc<AtomicBool>)
        ensures
            *final(self) == old(self).spec_with_change_flag(flag_arc),
            final(self).spec_margin_bounds() == old(self).spec_margin_bounds(),
            final(self).spec_bounds() == old(self).spec_bounds(),
            final(self).spec_weight() == old(self).spec_weight(),
            final(self).spec_h_align() == old(self).spec_h_align(),
            final(self).spec_v_align() == old(self).spec_v_align(),
            final(self).spec_is_focusable() == old(self).spec_is_focusable(),
            final(self).spec_is_focused() == old(self).spec_is_focused(),
            forall|i: Option<WidgetIndexPair>| #[trigger] final(self).spec_prev(i) == old(self).spec_prev(i),
            forall|i: Option<WidgetIndexPair>| #[trigger] final(self).spec_next(i) == old(self).spec_next(i),
    ;

    /// Sets the focus and returns `true` if the widget accepts it; a widget that refuses it
    /// stays as it is. Whether the widget accepts the focus or its loss does not change with
    /// the focus.
    fn set_focus(&mut self, is_focused: bool) -> (r: bool)
        ensures
            r == old(self).spec_accepts_focus(is_focused),
            r ==> final(self).spec_is_focused() == is_focused,
            !r ==> *final(self) == *old(self),
            forall|i: WidgetIndexPair| #[trigger] final(self).spec_child(i) == old(self).spec_child(i),
            forall|b: bool| #[trigger] final(self).spec_accepts_focus(b) == old(self).spec_accepts_focus(b),
    ;

    /// Computes the size of the widget for the area size, where `None` is an unbounded side.
    ///
    /// The weight and the alignments of the widget stay as they are.
    fn update_size(&mut self, theme: &Self::Theme, area_size: Size<Option<i32>>)
        ensures
            *final(self) == old(self).spec_updated_size(theme, area_size),
            final(self).spec_weight() == old(self).spec_weight(),
            final(self).spec_h_align() == old(self).spec_h_align(),
            final(self).spec_v_align() == old(self).spec_v_align(),
    ;

    /// Computes the position of the widget in the area bounds.
    ///
    /// The weight and the alignments of the widget stay as they are.
    fn update_pos(&mut self, theme: &Self::Theme, area_bounds: Rect<i32>)
        ensures
            *final(self) == old(self).spec_updated_pos(theme, area_bounds),
            final(self).spec_weight() == old(self).spec_weight(),
            final(self).spec_h_align() == old(self).spec_h_align(),
            final(self).spec_v_align() == old(self).spec_v_align(),
    ;

    /// Returns the widget index pair before the given one, or the last one for `None`.
    fn prev(&self, idx_pair: Option<WidgetIndexPair>) -> (r: Option<WidgetIndexPair>)
        ensures
            r == self.spec_prev(idx_pair),
    ;

    /// Returns the widget index pair after the given one, or the first one for `None`.
    fn next(&self, idx_pair: Option<WidgetIndexPair>) -> (r: Option<WidgetIndexPair>)
        ensures
            r == self.spec_next(idx_pair),
    ;

    /// Returns the child widget for the widget index pair.
    fn dyn_widget_for_index_pair(&self, idx_pair: WidgetIndexPair) -> (r: Option<&Self>)
        ensures
            match r {
                Some(w) => self.spec_child(idx_pair) == Some(*w),
                None => self.spec_child(idx_pair) is None,
            },
    ;

    /// Returns the mutable child widget for the widget index pair; a change of the child is a
    /// change of the child of the widget, which keeps its own focus and whether it accepts the
    /// focus.
    fn dyn_widget_mut_for_index_pair(&mut self, idx_pair: WidgetIndexPair) -> (r: Option<&mut Self>)
        ensures
            match r {
                Some(w) => {
                    &&& old(self).spec_child(idx_pair) == Some(*w)
                    &&& final(self).spec_child(idx_pair) == Some(*final(w))
                    &&& forall|j: WidgetIndexPair| j != idx_pair ==> #[trigger] final(self).spec_child(j) == old(self).spec_child(j)
                    &&& *final(w) == *w ==> *final(self) == *old(self)
                    &&& final(self).spec_is_focused() == old(self).spec_is_focused()
                    &&& forall|b: bool| #[trigger] final(self).spec_accepts_focus(b) == old(self).spec_accepts_focus(b)
                },
                None => old(self).spec_child(idx_pair) is None && *final(self) == *old(self),
            },
    ;

    fn margin_pos(&self) -> (r: Pos<i32>)
        ensures
            r.x == self.spec_margin_bounds().x,
            r.y == self.spec_margin_bounds().y,
    {
        self.margin_bounds().pos()
    }

    fn margin_size(&self) -> (r: Size<i32>)
        ensures
            r.width == self.spec_margin_bounds().width,
            r.height == self.spec_margin_bounds().height,
    {
        self.margin_bounds().size()
    }

    fn margin_width(&self) -> (r: i32)
        ensures
            r == self.spec_margin_bounds().width,
    {
        self.margin_bounds().width
    }

    fn margin_height(&self) -> (r: i32)
        ensures
            r == self.spec_margin_bounds().height,
    {
        self.margin_bounds().height
    }

    fn pos(&self) -> (r: Pos<i32>)
        ensures
            r.x == self.spec_bounds().x,
            r.y == self.spec_bounds().y,
    {
        self.bounds().pos()
    }

    fn size(&self) -> (r: Size<i32>)
        ensures
            r.width == self.spec_bounds().width,
            r.height == self.spec_bounds().height,
    {
        self.bounds().size()
    }
}

/// Returns another pointer to the shared value.
///
/// This wraps `Arc::clone` of std. Its documentation says that it makes another `Arc` pointer
/// to the same allocation; the contract claims that the clone equals the given pointer.
#[verifier::external_body]
pub(crate) fn clone_arc<T>(a: &Arc<T>) -> (r: Arc<T>)
    ensures
        r == *a,
{
    a.clone()
}

/// The two widgets differ at most in their change flags: they look the same to the layouts and
/// to focus navigation.
pub open spec fn same_but_change_flag<W: Widget>(a: W, b: W) -> bool {
    &&& a.spec_margin_bounds() == b.spec_margin_bounds()
    &&& a.spec_bounds() == b.spec_bounds()
    &&& a.spec_weight() == b.spec_weight()
    &&& a.spec_h_align() == b.spec_h_align()
    &&& a.spec_v_align() == b.spec_v_align()
    &&& a.spec_is_focusable() == b.spec_is_focusable()
    &&& a.spec_is_focused() == b.spec_is_focused()
    &&& forall|i: Option<WidgetIndexPair>| #[trigger] a.spec_prev(i) == b.spec_prev(i)
    &&& forall|i: Option<WidgetIndexPair>| #[trigger] a.spec_next(i) == b.spec_next(i)
}

/// The widget trees of the widget type are finite, and `prev` and `next` walk the children of
/// a widget backward and forward: a child is lower than its parent, `next` gives a position
/// after the given one, and `prev` a position before it.
pub open spec fn walkable<W: Widget>() -> bool {
    &&& forall|w: W, i: WidgetIndexPair| #![trigger w.spec_child(i)]
        w.spec_child(i) matches Some(c) ==> c.spec_rank() < w.spec_rank()
    &&& forall|w: W, p: Option<WidgetIndexPair>| #![trigger w.spec_next(p)]
        w.spec_next(p) matches Some(q) ==> {
            &&& w.spec_position(q) < w.spec_child_count()
            &&& p matches Some(a) ==> w.spec_position(a) < w.spec_position(q)
        }
    &&& forall|w: W, p: Option<WidgetIndexPair>| #![trigger w.spec_prev(p)]
        w.spec_prev(p) matches Some(q) ==> {
            &&& w.spec_position(q) < w.spec_child_count()
            &&& p matches Some(a) ==> w.spec_position(q) < w.spec_position(a)
        }
}

/// Neither path is a prefix of the other: they part at some position.
pub open spec fn paths_diverge(p: Seq<WidgetIndexPair>, q: Seq<WidgetIndexPair>) -> bool
    decreases p.len(),
{
    if p.len() == 0 || q.len() == 0 {
        false
    } else {
        p[0] != q[0] || paths_diverge(p.drop_first(), q.drop_first())
    }
}

/// The widget that the path leads to from the widget, or `None`.
pub open spec fn widget_descend<W: Widget>(w: W, path: Seq<WidgetIndexPair>) -> Option<W>
    decreases path.len(),
{
    if path.len() == 0 {
        Some(w)
    } else {
        match w.spec_child(path[0]) {
            Some(c) => widget_descend(c, path.drop_first()),
            None => None,
        }
    }
}

} // verus!
