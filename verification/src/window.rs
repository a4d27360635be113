//! The window trait, the index tokens that a window container hands to its windows, and focus
//! navigation over the widget tree of a window.
use vstd::prelude::*;
use crate::types::{Dir, Pos, RelWidgetPath, WidgetIndexPair, WindowIndex};
use crate::widget::{paths_diverge, walkable, Widget, widget_descend};

verus! {

/// The index of a window, given to the window by its window container.
#[derive(Copy, Clone, Debug)]
pub struct SelfWindowIndex(WindowIndex);

impl SelfWindowIndex {
    pub(crate) fn new(idx: WindowIndex) -> (r: SelfWindowIndex)
        ensures
            r.spec_window_index() == idx,
    {
        SelfWindowIndex(idx)
    }

    pub closed spec fn spec_window_index(&self) -> WindowIndex {
        self.0
    }

    pub fn window_index(&self) -> (r: WindowIndex)
        ensures
            r == self.spec_window_index(),
    {
        self.0
    }
}

/// A token that allows a window container to unset the index of a window.
#[derive(Copy, Clone, Debug)]
pub struct SelfWindowTag(());

impl SelfWindowTag {
    pub(crate) fn new() -> SelfWindowTag {
        SelfWindowTag(())
    }
}

/// The index of a parent window, given to a child window by its window container.
#[derive(Copy, Clone, Debug)]
pub struct ParentWindowIndex(WindowIndex);

impl ParentWindowIndex {
    pub(crate) fn new(idx: WindowIndex) -> (r: ParentWindowIndex)
        ensures
            r.spec_window_index() == idx,
    {
        ParentWindowIndex(idx)
    }

    pub closed spec fn spec_window_index(&self) -> WindowIndex {
        self.0
    }

    pub fn window_index(&self) -> (r: WindowIndex)
        ensures
            r == self.spec_window_index(),
    {
        self.0
    }
}

/// A token that allows a window container to unset the parent of a window.
#[derive(Copy, Clone, Debug)]
pub struct ParentWindowTag(());

impl ParentWindowTag {
    pub(crate) fn new() -> ParentWindowTag {
        ParentWindowTag(())
    }
}

/// The index of a child window, given to a parent window by its window container.
#[derive(Copy, Clone, Debug)]
pub struct ChildWindowIndex(WindowIndex);

impl ChildWindowIndex {
    pub(crate) fn new(idx: WindowIndex) -> (r: ChildWindowIndex)
        ensures
            r.spec_window_index() == idx,
    {
        ChildWindowIndex(idx)
    }

    pub closed spec fn spec_window_index(&self) -> WindowIndex {
        self.0
    }

    pub fn window_index(&self) -> (r: WindowIndex)
        ensures
            r == self.spec_window_index(),
    {
        self.0
    }
}

/// A window.
///
/// A window holds a tree of widgets: its own children are reached by widget index pairs and
/// the deeper widgets through the children. A window can have a parent window and child windows
/// in its window container. The getters are observers of the window: each one returns the
/// value of its specification function.
pub trait Window: Sized {
    /// The widget type of the widget tree.
    type W: Widget;

    closed spec fn spec_parent_index(&self) -> Option<WindowIndex> {
        arbitrary()
    }

    /// The indices of the child windows.
    closed spec fn spec_child_indices(&self) -> Set<usize> {
        arbitrary()
    }

    closed spec fn spec_focused_rel_widget_path(&self) -> Option<Seq<WidgetIndexPair>> {
        arbitrary()
    }

    closed spec fn spec_content_index_pair(&self) -> Option<WidgetIndexPair> {
        arbitrary()
    }

    /// The child widget of the window for the widget index pair.
    closed spec fn spec_child(&self, idx_pair: WidgetIndexPair) -> Option<Self::W> {
        arbitrary()
    }

    /// The widget index pair before the given one, or the last one for `None`.
    closed spec fn spec_prev(&self, idx_pair: Option<WidgetIndexPair>) -> Option<WidgetIndexPair> {
        arbitrary()
    }

    /// The widget index pair after the given one, or the first one for `None`.
    closed spec fn spec_next(&self, idx_pair: Option<WidgetIndexPair>) -> Option<WidgetIndexPair> {
        arbitrary()
    }

    /// Returns the title of the window; a window has none unless it says otherwise.
    fn title(&self) -> (r: Option<&str>)
        default_ensures
            r is None,
    {
        None
    }

    /// Returns whether the window has the focus; a window has none unless it says otherwise.
    fn is_focused(&self) -> (r: bool)
        default_ensures
            !r,
    {
        false
    }

    /// The window index that the window knows as its own: the one that `set_index` gave it,
    /// where it keeps one, and `None` after `unset_index`.
    closed spec fn spec_index(&self) -> Option<WindowIndex> {
        arbitrary()
    }

    /// The window after `set_index` with the index.
    closed spec fn spec_indexed(&self, idx: WindowIndex) -> Self {
        arbitrary()
    }

    /// The window after `unset_index`.
    closed spec fn spec_unindexed(&self) -> Self {
        arbitrary()
    }

    /// Whether the window accepts the parent at the position in `set_parent`.
    closed spec fn spec_accepts_parent(&self, idx: WindowIndex, pos: Pos<i32>) -> bool {
        arbitrary()
    }

    /// The window after it accepted the parent at the position.
    closed spec fn spec_with_parent(&self, idx: WindowIndex, pos: Pos<i32>) -> Self {
        arbitrary()
    }

    /// Whether the window, which has a parent, accepts `unset_parent`.
    closed spec fn spec_accepts_parent_unset(&self) -> bool {
        arbitrary()
    }

    /// The window after it accepted `unset_parent`.
    closed spec fn spec_without_parent(&self) -> Self {
        arbitrary()
    }

    /// Whether the window accepts the child in `add_child`.
    closed spec fn spec_accepts_child(&self, idx: WindowIndex) -> bool {
        arbitrary()
    }

    /// Whether the window accepts the removal of the child in `remove_child`.
    closed spec fn spec_accepts_child_removal(&self, idx: WindowIndex) -> bool {
        arbitrary()
    }

    /// Whether the window accepts the focused relative widget path in
    /// `set_only_focused_rel_widget_path`.
    closed spec fn spec_accepts_focused_path(&self, path: Option<Seq<WidgetIndexPair>>) -> bool {
        arbitrary()
    }

    /// Sets the window index: the window becomes `spec_indexed`, with its parent and its
    /// children, and knows the index as its own where it keeps one.
    fn set_index(&mut self, idx: SelfWindowIndex)
        ensures
            *final(self) == old(self).spec_indexed(idx.spec_window_index()),
            final(self).spec_parent_index() == old(self).spec_parent_index(),
            final(self).spec_child_indices() == old(self).spec_child_indices(),
            final(self).spec_index() is None || final(self).spec_index() == Some(idx.spec_window_index()),
    ;

    /// Unsets the window index: the window becomes `spec_unindexed`, with its parent and its
    /// children, and knows no index as its own.
    fn unset_index(&mut self, tag: SelfWindowTag)
        ensures
            *final(self) == old(self).spec_unindexed(),
            final(self).spec_parent_index() == old(self).spec_parent_index(),
            final(self).spec_child_indices() == old(self).spec_child_indices(),
            final(self).spec_index() is None,
    ;

    fn parent_index(&self) -> (r: Option<WindowIndex>)
        ensures
            r == self.spec_parent_index(),
    ;

    /// Returns the position of the window in its parent; a window has none unless it says
    /// otherwise.
    fn pos_in_parent(&self) -> (r: Option<Pos<i32>>)
        default_ensures
            r is None,
    {
        None
    }

    /// Sets the parent and returns `Some(())` if the window accepts it; a window that refuses
    /// it stays as it is.
    fn set_parent(&mut self, idx: ParentWindowIndex, pos: Pos<i32>) -> (r: Option<()>)
        ensures
            r is Some <==> old(self).spec_accepts_parent(idx.spec_window_index(), pos),
            r is Some ==> *final(self) == old(self).spec_with_parent(idx.spec_window_index(), pos),
            r is None ==> *final(self) == *old(self),
            r is Some ==> final(self).spec_parent_index() == Some(idx.spec_window_index()),
            final(self).spec_child_indices() == old(self).spec_child_indices(),            final(self).spec_index() == old(self).spec_index(),
    ;

    /// Unsets the parent and returns `Some(())` if the window had one and accepts it; a window
    /// that refuses it stays as it is. Whether the window accepts the removal of its children
    /// does not change.
    fn unset_parent(&mut self, tag: ParentWindowTag) -> (r: Option<()>)
        ensures
            r is Some <==> old(self).spec_parent_index() is Some && old(self).spec_accepts_parent_unset(),
            r is Some ==> *final(self) == old(self).spec_without_parent(),
            r is None ==> *final(self) == *old(self),
            r is Some ==> final(self).spec_parent_index() is None,
            final(self).spec_child_indices() == old(self).spec_child_indices(),            final(self).spec_index() == old(self).spec_index(),
            forall|j: WindowIndex| #[trigger] final(self).spec_accepts_child_removal(j) == old(self).spec_accepts_child_removal(j),
    ;

    /// Returns the indices of the child windows, each once.
    fn child_indices(&self) -> (r: Vec<WindowIndex>)
        ensures
            forall|i: int| 0 <= i < r@.len() ==> self.spec_child_indices().contains(#[trigger] r@[i].0),
            forall|k: usize| #[trigger] self.spec_child_indices().contains(k) ==> exists|i: int| 0 <= i < r@.len() && r@[i].0 == k,
            forall|i: int, j: int| 0 <= i < j < r@.len() ==> r@[i].0 != r@[j].0,
    ;

    /// Adds a child and returns `Some(())` if the window accepts it; a window that refuses it
    /// stays as it is.
    fn add_child(&mut self, idx: ChildWindowIndex) -> (r: Option<()>)
        ensures
            r is Some <==> old(self).spec_accepts_child(idx.spec_window_index()),
            r is Some ==> final(self).spec_child_indices() == old(self).spec_child_indices().insert(idx.spec_window_index().0),
            r is None ==> *final(self) == *old(self),
            final(self).spec_parent_index() == old(self).spec_parent_index(),            final(self).spec_index() == old(self).spec_index(),
    ;

    /// Removes a child and returns `Some(())` if the window had it and accepts the removal; a
    /// window that refuses it stays as it is. Whether the window accepts the removal of its
    /// other children does not change.
    fn remove_child(&mut self, idx: ChildWindowIndex) -> (r: Option<()>)
        ensures
            r is Some <==> old(self).spec_accepts_child_removal(idx.spec_window_index()),
            r is Some ==> old(self).spec_child_indices().contains(idx.spec_window_index().0),
            r is Some ==> final(self).spec_child_indices() == old(self).spec_child_indices().remove(idx.spec_window_index().0),
            r is None ==> *final(self) == *old(self),
            final(self).spec_parent_index() == old(self).spec_parent_index(),            final(self).spec_index() == old(self).spec_index(),
            forall|j: WindowIndex| j.0 != idx.spec_window_index().0
                ==> #[trigger] final(self).spec_accepts_child_removal(j) == old(self).spec_accepts_child_removal(j),
    ;

    /// Returns the widget index pair before the given one, or the last one for `None`.
    fn prev(&self, idx_pair: Option<WidgetIndexPair>) -> (r: Option<WidgetIndexPair>)
        ensures
            r == self.spec_prev(idx_pair),
    ;

    /// Returns the widget index pair after the given one, or the first one for `None`.
    fn next(&self, idx_pair: Option<WidgetIndexPair>) -> (r: Option<WidgetIndexPair>)
        ensures
            r == self.spec_next(idx_pair),
    ;

    /// Returns the child widget of the window for the widget index pair.
    fn dyn_widget_for_index_pair(&self, idx_pair: WidgetIndexPair) -> (r: Option<&Self::W>)
        ensures
            match r {
                Some(w) => self.spec_child(idx_pair) == Some(*w),
                None => self.spec_child(idx_pair) is None,
            },
    ;

    /// Returns the mutable child widget of the window for the widget index pair; a change of
    /// the child is a change of the child of the window.
    ///
    /// A change of the child leaves the focused relative widget path of the window as it is.
    fn dyn_widget_mut_for_index_pair(&mut self, idx_pair: WidgetIndexPair) -> (r: Option<&mut Self::W>)
        ensures
            match r {
                Some(w) => {
                    &&& old(self).spec_child(idx_pair) == Some(*w)
                    &&& final(self).spec_child(idx_pair) == Some(*final(w))
                    &&& forall|j: WidgetIndexPair| j != idx_pair ==> #[trigger] final(self).spec_child(j) == old(self).spec_child(j)
                    &&& *final(w) == *w ==> *final(self) == *old(self)
                    &&& forall|p: Option<Seq<WidgetIndexPair>>| #[trigger] final(self).spec_accepts_focused_path(p)
                        == old(self).spec_accepts_focused_path(p)
                },
                None => old(self).spec_child(idx_pair) is None && *final(self) == *old(self),
            },
            final(self).spec_focused_rel_widget_path() == old(self).spec_focused_rel_widget_path(),
    ;

    /// Returns the widget index pair of the content widget, where focus navigation starts.
    fn content_index_pair(&self) -> (r: Option<WidgetIndexPair>)
        ensures
            r == self.spec_content_index_pair(),
    ;

    fn focused_rel_widget_path(&self) -> (r: Option<&RelWidgetPath>)
        ensures
            match r {
                Some(p) => self.spec_focused_rel_widget_path() == Some(p@),
                None => self.spec_focused_rel_widget_path() is None,
            },
    ;

    /// Sets the focused relative widget path without changing the focus of the widgets and
    /// returns `true` if the window accepts it; a window that refuses it stays as it is.
    fn set_only_focused_rel_widget_path(&mut self, rel_widget_path: Option<RelWidgetPath>) -> (r: bool)
        ensures
            r == old(self).spec_accepts_focused_path(opt_path_view(rel_widget_path)),
            r ==> final(self).spec_focused_rel_widget_path() == opt_path_view(rel_widget_path),
            !r ==> *final(self) == *old(self),
            !r ==> final(self).spec_focused_rel_widget_path() == old(self).spec_focused_rel_widget_path(),
            forall|i: WidgetIndexPair| #[trigger] final(self).spec_child(i) == old(self).spec_child(i),
            final(self).spec_content_index_pair() == old(self).spec_content_index_pair(),
    ;

}

/// The widget index pairs of an optional relative widget path.
pub open spec fn opt_path_view(p: Option<RelWidgetPath>) -> Option<Seq<WidgetIndexPair>> {
    match p {
        Some(p) => Some(p@),
        None => None,
    }
}

/// The widget of the window that the relative widget path leads to, or `None`.
pub open spec fn window_widget<T: Window>(window: T, path: Seq<WidgetIndexPair>) -> Option<T::W> {
    if path.len() == 0 {
        None
    } else {
        match window.spec_child(path[0]) {
            Some(c) => widget_descend(c, path.drop_first()),
            None => None,
        }
    }
}

/// Returns the widget that the relative widget path leads to, or `None`.
pub fn window_dyn_widget<'a, T: Window>(window: &'a T, path: &RelWidgetPath) -> (r: Option<&'a T::W>)
    ensures
        match r {
            Some(w) => window_widget(*window, path@) == Some(*w),
            None => window_widget(*window, path@) is None,
        },
{
    if path.len() == 0 {
        return None;
    }
    let mut w = match window.dyn_widget_for_index_pair(path.widget_index_pairs[0]) {
        Some(w) => w,
        None => return None,
    };
    let mut i: usize = 1;
    while i < path.len()
        invariant
            1 <= i <= path@.len(),
            widget_descend(*w, path@.subrange(i as int, path@.len() as int)) == window_widget(*window, path@),
        decreases path@.len() - i,
    {
        let ghost rest = path@.subrange(i as int, path@.len() as int);
        proof {
            assert(rest.drop_first() =~= path@.subrange(i + 1, path@.len() as int));
        }
        w = match w.dyn_widget_for_index_pair(path.widget_index_pairs[i]) {
            Some(c) => c,
            None => return None,
        };
        i = i + 1;
    }
    proof {
        assert(path@.subrange(i as int, path@.len() as int) =~= Seq::<WidgetIndexPair>::empty());
    }
    Some(w)
}

/// Returns the mutable widget that the rest of the path from position `i` leads to from the
/// widget, or `None`.
pub(crate) fn widget_descend_mut<'a, W: Widget>(w: &'a mut W, path: &RelWidgetPath, i: usize) -> (r: Option<&'a mut W>)
    requires
        i <= path@.len(),
    ensures
        match r {
            Some(x) => {
                &&& widget_descend(*old(w), path@.subrange(i as int, path@.len() as int)) == Some(*x)
                &&& widget_descend(*final(w), path@.subrange(i as int, path@.len() as int)) == Some(*final(x))
                &&& *final(x) == *x ==> *final(w) == *old(w)
                &&& forall|q: Seq<WidgetIndexPair>| #[trigger] paths_diverge(path@.subrange(i as int, path@.len() as int), q)
                    ==> widget_descend(*final(w), q) == widget_descend(*old(w), q)
                &&& forall|n: int| 0 <= n < path@.len() - i
                    ==> #[trigger] focus_kept(*final(w), *old(w), path@.subrange(i as int, path@.len() as int).take(n))
                &&& same_children(*final(x), *x) ==> forall|t: Seq<WidgetIndexPair>| t.len() > 0
                    ==> #[trigger] widget_descend(*final(w), path@.subrange(i as int, path@.len() as int) + t)
                        == widget_descend(*old(w), path@.subrange(i as int, path@.len() as int) + t)
            },
            None => {
                &&& widget_descend(*old(w), path@.subrange(i as int, path@.len() as int)) is None
                &&& *final(w) == *old(w)
            },
        },
    decreases path@.len() - i,
{
    if i >= path.len() {
        let ghost w0 = *w;
        let ghost w1 = *final(w);
        proof {
            let e = path@.subrange(i as int, path@.len() as int);
            assert(e =~= Seq::<WidgetIndexPair>::empty());
            assert forall|t: Seq<WidgetIndexPair>| t.len() > 0 && same_children(w1, w0)
                implies #[trigger] widget_descend(w1, e + t) == widget_descend(w0, e + t) by {
                assert(e + t =~= t);
                assert(w1.spec_child(t[0]) == w0.spec_child(t[0]));
            }
        }
        return Some(w);
    }
    let ghost rest = path@.subrange(i as int, path@.len() as int);
    let ghost rest1 = path@.subrange(i + 1, path@.len() as int);
    let ghost w0 = *w;
    let ghost w1 = *final(w);
    proof {
        assert(rest.drop_first() =~= rest1);
    }
    match w.dyn_widget_mut_for_index_pair(path.widget_index_pairs[i]) {
        Some(c) => {
            let ghost c0 = *c;
            let ghost c1 = *final(c);
            let r = widget_descend_mut(c, path, i + 1);
            proof {
                assert forall|n: int| 0 <= n < path@.len() - i && r is Some implies #[trigger] focus_kept(w1, w0, rest.take(n)) by {
                    if n == 0 {
                        assert(rest.take(0) =~= Seq::<WidgetIndexPair>::empty());
                    } else {
                        assert(rest.take(n).drop_first() =~= rest1.take(n - 1));
                        assert(rest.take(n)[0] == rest[0]);
                        assert(focus_kept(c1, c0, rest1.take(n - 1)));
                    }
                }
                match &r {
                    Some(x) => {
                        if same_children(*final(*x), **x) {
                            assert forall|t: Seq<WidgetIndexPair>| t.len() > 0
                                implies #[trigger] widget_descend(w1, rest + t) == widget_descend(w0, rest + t) by {
                                assert((rest + t).drop_first() =~= rest1 + t);
                                assert((rest + t)[0] == rest[0]);
                                assert(widget_descend(c1, rest1 + t) == widget_descend(c0, rest1 + t));
                            }
                        }
                    },
                    None => {},
                }
                if r is Some {
                    assert forall|q: Seq<WidgetIndexPair>| #[trigger] paths_diverge(rest, q)
                        implies widget_descend(w1, q) == widget_descend(w0, q) by {
                        if q[0] != rest[0] {
                            assert(w1.spec_child(q[0]) == w0.spec_child(q[0]));
                        } else {
                            assert(paths_diverge(path@.subrange(i + 1, path@.len() as int), q.drop_first()));
                        }
                    }
                }
            }
            r
        },
        None => None,
    }
}

/// The two widgets have the same children.
pub open spec fn same_children<W: Widget>(a: W, b: W) -> bool {
    forall|j: WidgetIndexPair| #[trigger] a.spec_child(j) == b.spec_child(j)
}

/// The two widgets accept the focus and its loss alike.
pub open spec fn same_focus_accepts<W: Widget>(u: W, v: W) -> bool {
    forall|b: bool| #[trigger] u.spec_accepts_focus(b) == v.spec_accepts_focus(b)
}

/// The two widgets have the same focus and accept the focus and its loss alike.
pub open spec fn same_focus<W: Widget>(u: W, v: W) -> bool {
    &&& u.spec_is_focused() == v.spec_is_focused()
    &&& forall|b: bool| #[trigger] u.spec_accepts_focus(b) == v.spec_accepts_focus(b)
}

/// The path leads to a widget from both widgets, and the two widgets it leads to have the same
/// focus and accept the focus alike.
pub open spec fn focus_kept<W: Widget>(a: W, b: W, path: Seq<WidgetIndexPair>) -> bool {
    widget_descend(a, path) matches Some(u) && widget_descend(b, path) matches Some(v) && same_focus(u, v)
}

/// The path leads to a widget in both windows, and the two widgets it leads to have the same
/// focus and accept the focus alike.
pub open spec fn window_focus_kept<T: Window>(a: T, b: T, path: Seq<WidgetIndexPair>) -> bool {
    window_widget(a, path) matches Some(u) && window_widget(b, path) matches Some(v) && same_focus(u, v)
}

/// Returns the mutable widget that the relative widget path leads to, or `None`.
///
/// A change of the widget leaves the focused relative widget path of the window as it is.
pub fn window_dyn_widget_mut<'a, T: Window>(window: &'a mut T, path: &RelWidgetPath) -> (r: Option<&'a mut T::W>)
    ensures
        match r {
            Some(w) => {
                &&& window_widget(*old(window), path@) == Some(*w)
                &&& window_widget(*final(window), path@) == Some(*final(w))
                &&& *final(w) == *w ==> *final(window) == *old(window)
                &&& forall|q: Seq<WidgetIndexPair>| #[trigger] paths_diverge(path@, q)
                    ==> window_widget(*final(window), q) == window_widget(*old(window), q)
                &&& forall|n: int| 1 <= n < path@.len() ==> #[trigger] window_focus_kept(*final(window), *old(window), path@.take(n))
                &&& same_children(*final(w), *w) ==> forall|t: Seq<WidgetIndexPair>| t.len() > 0
                    ==> #[trigger] window_widget(*final(window), path@ + t) == window_widget(*old(window), path@ + t)
            },
            None => window_widget(*old(window), path@) is None && *final(window) == *old(window),
        },
        final(window).spec_focused_rel_widget_path() == old(window).spec_focused_rel_widget_path(),
        forall|p: Option<Seq<WidgetIndexPair>>| #[trigger] final(window).spec_accepts_focused_path(p)
            == old(window).spec_accepts_focused_path(p),
{
    if path.len() == 0 {
        return None;
    }
    let ghost w0 = *window;
    let ghost w1 = *final(window);
    let ghost rest1 = path@.subrange(1, path@.len() as int);
    proof {
        assert(path@.subrange(1, path@.len() as int) =~= path@.drop_first());
    }
    match window.dyn_widget_mut_for_index_pair(path.widget_index_pairs[0]) {
        Some(w) => {
            let ghost c0 = *w;
            let ghost c1 = *final(w);
            let r = widget_descend_mut(w, path, 1);
            proof {
                assert forall|n: int| 1 <= n < path@.len() && r is Some implies #[trigger] window_focus_kept(w1, w0, path@.take(n)) by {
                    assert(path@.take(n).drop_first() =~= rest1.take(n - 1));
                    assert(path@.take(n)[0] == path@[0]);
                    assert(focus_kept(c1, c0, rest1.take(n - 1)));
                }
                match &r {
                    Some(x) => {
                        if same_children(*final(*x), **x) {
                            assert forall|t: Seq<WidgetIndexPair>| t.len() > 0
                                implies #[trigger] window_widget(w1, path@ + t) == window_widget(w0, path@ + t) by {
                                assert((path@ + t).drop_first() =~= rest1 + t);
                                assert((path@ + t)[0] == path@[0]);
                                assert(widget_descend(c1, rest1 + t) == widget_descend(c0, rest1 + t));
                            }
                        }
                    },
                    None => {},
                }
                if r is Some {
                    assert forall|q: Seq<WidgetIndexPair>| #[trigger] paths_diverge(path@, q)
                        implies window_widget(w1, q) == window_widget(w0, q) by {
                        if q[0] != path@[0] {
                            assert(w1.spec_child(q[0]) == w0.spec_child(q[0]));
                        } else {
                            assert(paths_diverge(path@.subrange(1, path@.len() as int), q.drop_first()));
                        }
                    }
                }
            }
            r
        },
        None => None,
    }
}

/// The widget index pair before or after the given one in the direction.
pub open spec fn step_of<W: Widget>(w: W, idx_pair: Option<WidgetIndexPair>, dir: Dir) -> Option<WidgetIndexPair> {
    match dir {
        Dir::Prev => w.spec_prev(idx_pair),
        Dir::Next => w.spec_next(idx_pair),
    }
}

/// How many steps in the direction are left at most from the widget index pair.
pub open spec fn walk_measure<W: Widget>(w: W, idx_pair: Option<WidgetIndexPair>, dir: Dir) -> int {
    match idx_pair {
        None => w.spec_child_count() as int,
        Some(p) => match dir {
            Dir::Prev => w.spec_position(p) as int,
            Dir::Next => w.spec_child_count() - w.spec_position(p) - 1,
        },
    }
}

/// The search for a focusable widget under the widget, after the widget index pair in the
/// direction, depth first: `None` where a child is missing, `Some(None)` where no focusable
/// widget comes, and `Some(Some(path))` with the path to the first focusable widget. The
/// search does not descend into a focusable widget.
pub open spec fn search_from<W: Widget>(w: W, idx_pair: Option<WidgetIndexPair>, dir: Dir) -> Option<Option<Seq<WidgetIndexPair>>>
    decreases w.spec_rank(), walk_measure(w, idx_pair, dir)
        when walkable::<W>()
{
    match step_of(w, idx_pair, dir) {
        None => Some(None),
        Some(q) => match w.spec_child(q) {
            None => None,
            Some(c) => {
                if c.spec_is_focusable() {
                    Some(Some(seq![q]))
                } else {
                    match search_from(c, None, dir) {
                        None => None,
                        Some(Some(p)) => Some(Some(seq![q] + p)),
                        Some(None) => search_from(w, Some(q), dir),
                    }
                }
            }
        },
    }
}

/// The view of a search result.
pub open spec fn search_view(r: Option<Option<Vec<WidgetIndexPair>>>) -> Option<Option<Seq<WidgetIndexPair>>> {
    match r {
        None => None,
        Some(None) => Some(None),
        Some(Some(v)) => Some(Some(v@)),
    }
}

/// The view of an optional optional relative widget path.
pub open spec fn opt_opt_path_view(r: Option<Option<RelWidgetPath>>) -> Option<Option<Seq<WidgetIndexPair>>> {
    match r {
        None => None,
        Some(None) => Some(None),
        Some(Some(p)) => Some(Some(p@)),
    }
}

fn step<W: Widget>(w: &W, idx_pair: Option<WidgetIndexPair>, dir: Dir) -> (r: Option<WidgetIndexPair>)
    ensures
        r == step_of(*w, idx_pair, dir),
{
    match dir {
        Dir::Prev => w.prev(idx_pair),
        Dir::Next => w.next(idx_pair),
    }
}

fn search_from_widget<W: Widget>(w: &W, idx_pair: Option<WidgetIndexPair>, dir: Dir) -> (r: Option<Option<Vec<WidgetIndexPair>>>)
    requires
        walkable::<W>(),
    ensures
        search_view(r) == search_from(*w, idx_pair, dir),
    decreases w.spec_rank(), walk_measure(*w, idx_pair, dir),
{
    match step(w, idx_pair, dir) {
        None => Some(None),
        Some(q) => {
            let c = match w.dyn_widget_for_index_pair(q) {
                Some(c) => c,
                None => return None,
            };
            if c.is_focusable() {
                let mut v: Vec<WidgetIndexPair> = Vec::new();
                v.push(q);
                proof {
                    assert(v@ =~= seq![q]);
                }
                Some(Some(v))
            } else {
                proof {
                    assert(w.spec_child(q) == Some(*c));
                    assert(w.spec_next(idx_pair) == step_of(*w, idx_pair, dir) || w.spec_prev(idx_pair) == step_of(*w, idx_pair, dir));
                }
                match search_from_widget(c, None, dir) {
                    None => None,
                    Some(Some(p)) => {
                        let mut p = p;
                        let ghost p0 = p@;
                        p.insert(0, q);
                        proof {
                            assert(p@ =~= seq![q] + p0);
                        }
                        Some(Some(p))
                    },
                    Some(None) => search_from_widget(w, Some(q), dir),
                }
            }
        },
    }
}

/// The resumption of the search for a focusable widget at the widget of the first `j + 1`
/// widget index pairs of the path: the search goes on after `start`; where no focusable
/// widget comes, it goes on at the level above, unless the widget is focusable or at the top,
/// where it stops (`is_stop_for_none`) or starts again from the first child once.
pub open spec fn resume_from<T: Window>(
    window: T,
    path: Seq<WidgetIndexPair>,
    j: nat,
    start: Option<WidgetIndexPair>,
    dir: Dir,
    is_stop_for_none: bool,
) -> Option<Option<Seq<WidgetIndexPair>>>
    decreases j,
{
    let prefix = path.take(j + 1 as int);
    match window_widget(window, prefix) {
        None => None,
        Some(w) => match search_from(w, start, dir) {
            None => None,
            Some(Some(p)) => Some(Some(prefix + p)),
            Some(None) => {
                if w.spec_is_focusable() || j == 0 {
                    if is_stop_for_none {
                        if w.spec_is_focusable() {
                            Some(Some(prefix))
                        } else {
                            Some(None)
                        }
                    } else {
                        match search_from(w, None, dir) {
                            Some(Some(p)) => Some(Some(prefix + p)),
                            _ => None,
                        }
                    }
                } else {
                    resume_from(window, path, (j - 1) as nat, Some(path[j as int]), dir, is_stop_for_none)
                }
            },
        },
    }
}

/// The relative widget path of the previous or next focusable widget, or of the first
/// focusable widget under the focused widget (`is_down`).
///
/// Without a focused widget, the search starts at the content widget. `None` stands for a
/// failure: a missing or unfocusable focused widget, a missing child, or a search in a scope
/// without a focusable widget, which would go round forever. `Some(None)` stands for no
/// focusable widget.
pub open spec fn prev_or_next_focused_of<T: Window>(window: T, dir: Dir, is_down: bool) -> Option<Option<Seq<WidgetIndexPair>>> {
    match window.spec_focused_rel_widget_path() {
        Some(path) => match window_widget(window, path) {
            None => None,
            Some(w) => {
                if !w.spec_is_focusable() {
                    None
                } else if is_down {
                    resume_from(window, path, (path.len() - 1) as nat, None, dir, true)
                } else if path.len() > 1 {
                    resume_from(window, path, (path.len() - 2) as nat, Some(path.last()), dir, false)
                } else {
                    Some(Some(seq![path[0]]))
                }
            },
        },
        None => match window.spec_content_index_pair() {
            None => Some(None),
            Some(c) => match window.spec_child(c) {
                None => None,
                Some(w) => {
                    if w.spec_is_focusable() {
                        Some(Some(seq![c]))
                    } else {
                        match search_from(w, None, dir) {
                            None => None,
                            Some(Some(p)) => Some(Some(seq![c] + p)),
                            Some(None) => Some(None),
                        }
                    }
                },
            },
        },
    }
}

/// Returns the relative widget path of the first `n` widget index pairs of the path.
fn prefix_path(path: &RelWidgetPath, n: usize) -> (r: RelWidgetPath)
    requires
        1 <= n <= path@.len(),
    ensures
        r@ == path@.take(n as int),
{
    let mut r = RelWidgetPath::new(path.widget_index_pairs[0]);
    let mut i: usize = 1;
    while i < n
        invariant
            1 <= i <= n <= path@.len(),
            r@ == path@.take(i as int),
        decreases n - i,
    {
        r.push(path.widget_index_pairs[i]);
        proof {
            assert(r@ =~= path@.take(i + 1));
        }
        i = i + 1;
    }
    r
}

/// Appends the widget index pairs to the relative widget path.
fn append_pairs(path: &mut RelWidgetPath, pairs: &Vec<WidgetIndexPair>)
    ensures
        final(path)@ == old(path)@ + pairs@,
{
    let mut i: usize = 0;
    while i < pairs.len()
        invariant
            i <= pairs@.len(),
            path@ == old(path)@ + pairs@.take(i as int),
        decreases pairs@.len() - i,
    {
        path.push(pairs[i]);
        proof {
            assert(path@ =~= old(path)@ + pairs@.take(i + 1));
        }
        i = i + 1;
    }
    proof {
        assert(pairs@.take(i as int) =~= pairs@);
    }
}

fn resume_search<T: Window>(
    window: &T,
    path: &RelWidgetPath,
    j: usize,
    start: Option<WidgetIndexPair>,
    dir: Dir,
    is_stop_for_none: bool,
) -> (r: Option<Option<RelWidgetPath>>)
    requires
        j < path@.len(),
        walkable::<T::W>(),
    ensures
        opt_opt_path_view(r) == resume_from(*window, path@, j as nat, start, dir, is_stop_for_none),
    decreases j,
{
    let n = path.len();
    let prefix = prefix_path(path, j + 1);
    let w = match window_dyn_widget(window, &prefix) {
        Some(w) => w,
        None => return None,
    };
    match search_from_widget(w, start, dir) {
        None => None,
        Some(Some(p)) => {
            let mut r = prefix;
            append_pairs(&mut r, &p);
            Some(Some(r))
        },
        Some(None) => {
            if w.is_focusable() || j == 0 {
                if is_stop_for_none {
                    if w.is_focusable() {
                        Some(Some(prefix))
                    } else {
                        Some(None)
                    }
                } else {
                    match search_from_widget(w, None, dir) {
                        Some(Some(p)) => {
                            let mut r = prefix;
                            append_pairs(&mut r, &p);
                            Some(Some(r))
                        },
                        _ => None,
                    }
                }
            } else {
                resume_search(window, path, j - 1, Some(path.widget_index_pairs[j]), dir, is_stop_for_none)
            }
        },
    }
}

/// Returns the relative widget path of the previous or next focusable widget in the
/// direction, or of the first focusable widget under the focused widget (`is_down`).
///
/// Without a focused widget, the search starts at the content widget. The search goes depth
/// first and does not descend into focusable widgets; it stays in the innermost focusable
/// ancestor of the focused widget, or the top widget, and starts there again from the first
/// child when it reaches the end. `Some(None)` is returned where there is no focusable widget,
/// and `None` where the focused widget is missing or not focusable, a child is missing, or the
/// search would go round forever.
pub fn prev_or_next_focused_widget<T: Window>(window: &T, dir: Dir, is_down: bool) -> (r: Option<Option<RelWidgetPath>>)
    requires
        walkable::<T::W>(),
    ensures
        opt_opt_path_view(r) == prev_or_next_focused_of(*window, dir, is_down),
{
    match window.focused_rel_widget_path() {
        Some(path) => {
            let w = match window_dyn_widget(window, path) {
                Some(w) => w,
                None => return None,
            };
            if !w.is_focusable() {
                return None;
            }
            let n = path.len();
            if is_down {
                resume_search(window, path, n - 1, None, dir, true)
            } else if n > 1 {
                resume_search(window, path, n - 2, Some(path.widget_index_pairs[n - 1]), dir, false)
            } else {
                Some(Some(RelWidgetPath::new(path.widget_index_pairs[0])))
            }
        },
        None => {
            match window.content_index_pair() {
                None => Some(None),
                Some(c) => {
                    let w = match window.dyn_widget_for_index_pair(c) {
                        Some(w) => w,
                        None => return None,
                    };
                    if w.is_focusable() {
                        Some(Some(RelWidgetPath::new(c)))
                    } else {
                        match search_from_widget(w, None, dir) {
                            None => None,
                            Some(Some(p)) => {
                                let mut r = RelWidgetPath::new(c);
                                append_pairs(&mut r, &p);
                                Some(Some(r))
                            },
                            Some(None) => Some(None),
                        }
                    }
                },
            }
        },
    }
}

/// Copies an optional relative widget path.
fn copy_opt_path(p: Option<&RelWidgetPath>) -> (r: Option<RelWidgetPath>)
    ensures
        opt_path_view(r) == match p {
            Some(p) => Some(p@),
            None => None::<Seq<WidgetIndexPair>>,
        },
{
    match p {
        Some(p) => Some(p.copy()),
        None => None,
    }
}

/// Sets the focused relative widget path and moves the focus of the widgets to it.
///
/// The previously focused widget loses its focus. Where the window accepts the path, the new
/// widget gets the focus; where it refuses the focus, the window goes back to the previous
/// path, whose widget gets the focus again, and `false` is returned. `false` is returned too
/// where the window refuses the path. After `true` the path is the focused one; after `false`
/// the focused path is the previous one, or the new one where the window refused to go back.
pub fn set_focused_rel_widget_path<T: Window>(window: &mut T, rel_widget_path: Option<RelWidgetPath>) -> (r: bool)
    ensures
        r ==> final(window).spec_focused_rel_widget_path() == opt_path_view(rel_widget_path),
        r ==> focus_moved(*old(window), *final(window)),
        !r ==> focus_move_failed(*old(window), *final(window), opt_path_view(rel_widget_path)),
        widgets_kept_off(*old(window), *final(window), old(window).spec_focused_rel_widget_path(), opt_path_view(rel_widget_path)),
        r == focus_move_succeeds(*old(window), opt_path_view(rel_widget_path)),
{
    let ghost w0 = *window;
    let ghost op = w0.spec_focused_rel_widget_path();
    let ghost np = opt_path_view(rel_widget_path);
    let saved_old_rel_widget_path = copy_opt_path(window.focused_rel_widget_path());
    match &saved_old_rel_widget_path {
        Some(old_rel_widget_path) => {
            match window_dyn_widget_mut(window, old_rel_widget_path) {
                Some(old_widget) => {
                    let ghost ow0 = *old_widget;
                    old_widget.set_focus(false);
                    proof {
                        assert(same_children(*old_widget, ow0));
                        assert(same_focus_accepts(*old_widget, ow0));
                    }
                },
                None => {},
            }
        },
        None => {},
    }
    let ghost w1 = *window;
    proof {
        match op {
            Some(op) => {
                assert(focus_lost(w0, w1, op));
                assert(window_widget(w0, op) is Some ==> window_widget(w1, op) is Some);
            },
            None => {},
        }
        assert(widgets_kept_off(w0, w1, op, np));
        match np {
            Some(p) => {
                match op {
                    Some(op) => {
                        if window_widget(w0, op) is Some && p.len() > 0 {
                            lemma_paths_relate(op, p);
                            if paths_diverge(op, p) {
                                assert(window_widget(w1, p) == window_widget(w0, p));
                            } else if p == op {
                            } else if p.len() < op.len() {
                                assert(window_focus_kept(w1, w0, op.take(p.len() as int)));
                            } else {
                                let t = p.subrange(op.len() as int, p.len() as int);
                                assert(p =~= op + t);
                                assert(window_widget(w1, op + t) == window_widget(w0, op + t));
                            }
                        }
                    },
                    None => {},
                }
                assert(window_widget(w1, p) is Some == window_widget(w0, p) is Some);
                assert(window_widget(w1, p) is Some ==> (window_widget(w1, p)->0.spec_accepts_focus(true)
                    == window_widget(w0, p)->0.spec_accepts_focus(true)));
            },
            None => {},
        }
    }
    if window.set_only_focused_rel_widget_path(rel_widget_path) {
        let ghost w2 = *window;
        proof {
            lemma_same_children_same_widgets(w1, w2);
        }
        let new_rel_widget_path = copy_opt_path(window.focused_rel_widget_path());
        match new_rel_widget_path {
            Some(new_rel_widget_path) => {
                let ghost np = new_rel_widget_path@;
                let is_new_widget = match window_dyn_widget_mut(window, &new_rel_widget_path) {
                    Some(new_widget) => {
                        let ghost nw0 = *new_widget;
                        let accepted = new_widget.set_focus(true);
                        proof {
                            assert(same_children(*new_widget, nw0));
                        }
                        accepted
                    },
                    None => false,
                };
                let ghost w3 = *window;
                proof {
                    if is_new_widget {
                        match op {
                            Some(op) => {
                                if np != op && window_widget(w0, op) is Some && window_widget(w0, op)->0.spec_accepts_focus(false) {
                                    lemma_paths_relate(np, op);
                                    if paths_diverge(np, op) {
                                        assert(window_widget(w3, op) == window_widget(w2, op));
                                    } else if op.len() < np.len() {
                                        assert(op.len() >= 1);
                                        assert(window_focus_kept(w3, w2, np.take(op.len() as int)));
                                    } else {
                                        let t = op.subrange(np.len() as int, op.len() as int);
                                        assert(op =~= np + t);
                                        assert(window_widget(w3, np + t) == window_widget(w2, np + t));
                                    }
                                }
                            },
                            None => {},
                        }
                    } else {
                        assert(w3 == w2);
                    }
                    assert(widgets_kept_off(w2, w3, Some(np), Some(np)));
                }
                if !is_new_widget {
                    let restored = window.set_only_focused_rel_widget_path(saved_old_rel_widget_path);
                    let ghost w4 = *window;
                    proof {
                        if restored {
                            lemma_same_children_same_widgets(w3, w4);
                            assert forall|q: Seq<WidgetIndexPair>| #[trigger] window_widget(w4, q) == window_widget(w1, q) by {
                                assert(window_widget(w3, q) == window_widget(w2, q));
                            }
                        }
                    }
                    let restored_rel_widget_path = copy_opt_path(window.focused_rel_widget_path());
                    match restored_rel_widget_path {
                        Some(old_rel_widget_path) => {
                            match window_dyn_widget_mut(window, &old_rel_widget_path) {
                                Some(old_widget) => {
                                    old_widget.set_focus(true);
                                },
                                None => {},
                            }
                        },
                        None => {},
                    }
                    proof {
                        assert(widgets_kept_off(w4, *window, w4.spec_focused_rel_widget_path(), w4.spec_focused_rel_widget_path()));
                        assert forall|q: Seq<WidgetIndexPair>| off_path(q, op) && off_path(q, Some(np))
                            implies #[trigger] window_widget(*window, q) == window_widget(w0, q) by {
                            assert(window_widget(w1, q) == window_widget(w0, q));
                            assert(window_widget(w3, q) == window_widget(w2, q));
                            if restored {
                                assert(window_widget(w4, q) == window_widget(w1, q));
                            }
                        }
                    }
                    false
                } else {
                    proof {
                        assert forall|q: Seq<WidgetIndexPair>| off_path(q, op) && off_path(q, Some(np))
                            implies #[trigger] window_widget(w3, q) == window_widget(w0, q) by {
                            assert(window_widget(w1, q) == window_widget(w0, q));
                        }
                    }
                    true
                }
            },
            None => {
                proof {
                    match op {
                        Some(op) => {
                            assert(window_widget(w2, op) == window_widget(w1, op));
                        },
                        None => {},
                    }
                    assert forall|q: Seq<WidgetIndexPair>| off_path(q, op) && off_path(q, np)
                        implies #[trigger] window_widget(w2, q) == window_widget(w0, q) by {
                        assert(window_widget(w1, q) == window_widget(w0, q));
                    }
                }
                true
            },
        }
    } else {
        false
    }
}

/// The same children give the same widgets under every path.
proof fn lemma_same_children_same_widgets<T: Window>(a: T, b: T)
    requires
        forall|i: WidgetIndexPair| #[trigger] b.spec_child(i) == a.spec_child(i),
    ensures
        forall|q: Seq<WidgetIndexPair>| #[trigger] window_widget(b, q) == window_widget(a, q),
{
    assert forall|q: Seq<WidgetIndexPair>| #[trigger] window_widget(b, q) == window_widget(a, q) by {
        if q.len() > 0 {
            assert(b.spec_child(q[0]) == a.spec_child(q[0]));
        }
    }
}

/// The path parts from the optional path, or there is no optional path.
pub open spec fn off_path(q: Seq<WidgetIndexPair>, p: Option<Seq<WidgetIndexPair>>) -> bool {
    match p {
        Some(p) => paths_diverge(p, q),
        None => true,
    }
}

/// The widgets under the paths that part from the two optional paths are the same in the two
/// windows.
pub open spec fn widgets_kept_off<T: Window>(
    a: T,
    b: T,
    p1: Option<Seq<WidgetIndexPair>>,
    p2: Option<Seq<WidgetIndexPair>>,
) -> bool {
    forall|q: Seq<WidgetIndexPair>| off_path(q, p1) && off_path(q, p2) ==> #[trigger] window_widget(b, q) == window_widget(a, q)
}

/// Whether a move of the focus to the new path succeeds: the window accepts the path, and
/// there is no new path or it leads to a widget that accepts the focus. Losing the focus changes
/// neither which widgets there are nor whether they accept the focus, so the old focused widget
/// does not change the outcome, wherever it is.
pub open spec fn focus_move_succeeds<T: Window>(w: T, new_path: Option<Seq<WidgetIndexPair>>) -> bool {
    &&& w.spec_accepts_focused_path(new_path)
    &&& match new_path {
        Some(p) => window_widget(w, p) matches Some(x) && x.spec_accepts_focus(true),
        None => true,
    }
}

/// What a failed move of the focus to the new path leaves. Where the window refuses the new
/// path, it keeps the old one, and the old focused widget lost the focus where it accepts to
/// lose it. Where the window took the new path but the new widget is missing or refuses the
/// focus, the window is asked to take the old path back: it has the old path, with the old
/// focused widget focused again unless that widget refuses, or it kept the new path because it
/// refuses the old one.
pub open spec fn focus_move_failed<T: Window>(old_window: T, new_window: T, new_path: Option<Seq<WidgetIndexPair>>) -> bool {
    if old_window.spec_accepts_focused_path(new_path) {
        &&& {
            ||| new_window.spec_focused_rel_widget_path() == old_window.spec_focused_rel_widget_path()
            ||| new_window.spec_focused_rel_widget_path() == new_path
        }
        &&& new_window.spec_focused_rel_widget_path() == old_window.spec_focused_rel_widget_path()
            ==> focus_regained(old_window, new_window)
        &&& new_window.spec_focused_rel_widget_path() != old_window.spec_focused_rel_widget_path()
            ==> !new_window.spec_accepts_focused_path(old_window.spec_focused_rel_widget_path())
    } else {
        &&& new_window.spec_focused_rel_widget_path() == old_window.spec_focused_rel_widget_path()
        &&& match old_window.spec_focused_rel_widget_path() {
            Some(op) => focus_lost(old_window, new_window, op),
            None => true,
        }
    }
}

/// The focused relative widget path of the window leads to a widget that has the focus, or
/// there is no focused relative widget path.
pub open spec fn focus_shown<T: Window>(window: T) -> bool {
    match window.spec_focused_rel_widget_path() {
        Some(p) => window_widget(window, p) matches Some(w) && w.spec_is_focused(),
        None => true,
    }
}

/// The widget that the path leads to in the old window, where it accepts to lose the focus, is
/// there in the new window without the focus.
pub open spec fn focus_lost<T: Window>(old_window: T, new_window: T, p: Seq<WidgetIndexPair>) -> bool {
    window_widget(old_window, p) matches Some(v) && v.spec_accepts_focus(false)
        ==> (window_widget(new_window, p) matches Some(w) && !w.spec_is_focused())
}

/// The focus moved from the old window to the new one: the new focused widget has the focus,
/// and the old focused widget, where it is another one and accepts to lose the focus, lost it.
pub open spec fn focus_moved<T: Window>(old_window: T, new_window: T) -> bool {
    &&& focus_shown(new_window)
    &&& match old_window.spec_focused_rel_widget_path() {
        Some(op) => new_window.spec_focused_rel_widget_path() != Some(op) ==> focus_lost(old_window, new_window, op),
        None => true,
    }
}

/// The old focused widget is there in the new window and has the focus again, unless it refuses
/// the focus.
pub open spec fn focus_regained<T: Window>(old_window: T, new_window: T) -> bool {
    match old_window.spec_focused_rel_widget_path() {
        Some(op) => window_widget(old_window, op) is Some
            ==> (window_widget(new_window, op) matches Some(w) && (w.spec_is_focused() || !w.spec_accepts_focus(true))),
        None => true,
    }
}

/// Two paths part, are equal, or one of them extends the other.
pub proof fn lemma_paths_relate(p: Seq<WidgetIndexPair>, q: Seq<WidgetIndexPair>)
    ensures
        paths_diverge(p, q) || p == q || (p.len() < q.len() && q.take(p.len() as int) == p)
            || (q.len() < p.len() && p.take(q.len() as int) == q),
    decreases p.len(),
{
    if p.len() == 0 && q.len() == 0 {
        assert(p =~= q);
    } else if p.len() == 0 {
        assert(q.take(0) =~= p);
    } else if q.len() == 0 {
        assert(p.take(0) =~= q);
    } else if p[0] != q[0] {
    } else {
        let p1 = p.drop_first();
        let q1 = q.drop_first();
        lemma_paths_relate(p1, q1);
        if p1 == q1 {
            assert forall|k: int| 0 <= k < p.len() implies p[k] == q[k] by {
                if k > 0 {
                    assert(p[k] == p1[k - 1]);
                    assert(q[k] == q1[k - 1]);
                }
            }
            assert(p =~= q);
        } else if p1.len() < q1.len() && q1.take(p1.len() as int) == p1 {
            assert forall|k: int| 0 <= k < p.len() implies q.take(p.len() as int)[k] == p[k] by {
                if k > 0 {
                    assert(p[k] == p1[k - 1]);
                    assert(q[k] == q1[k - 1]);
                    assert(q1.take(p1.len() as int)[k - 1] == q1[k - 1]);
                }
            }
            assert(q.take(p.len() as int) =~= p);
        } else if q1.len() < p1.len() && p1.take(q1.len() as int) == q1 {
            assert forall|k: int| 0 <= k < q.len() implies p.take(q.len() as int)[k] == q[k] by {
                if k > 0 {
                    assert(p[k] == p1[k - 1]);
                    assert(q[k] == q1[k - 1]);
                    assert(p1.take(q1.len() as int)[k - 1] == p1[k - 1]);
                }
            }
            assert(p.take(q.len() as int) =~= q);
        }
    }
}

/// Returns the focused widget, or `None`.
pub fn dyn_focused_widget<T: Window>(window: &T) -> (r: Option<&T::W>)
    ensures
        match window.spec_focused_rel_widget_path() {
            Some(path) => match r {
                Some(w) => window_widget(*window, path) == Some(*w),
                None => window_widget(*window, path) is None,
            },
            None => r is None,
        },
{
    match window.focused_rel_widget_path() {
        Some(rel_widget_path) => window_dyn_widget(window, rel_widget_path),
        None => None,
    }
}

/// Returns the mutable focused widget, or `None`.
pub fn dyn_focused_widget_mut<T: Window>(window: &mut T) -> (r: Option<&mut T::W>)
    ensures
        match old(window).spec_focused_rel_widget_path() {
            Some(path) => match r {
                Some(w) => window_widget(*old(window), path) == Some(*w) && window_widget(*final(window), path) == Some(*final(w)),
                None => window_widget(*old(window), path) is None,
            },
            None => r is None,
        },
        final(window).spec_focused_rel_widget_path() == old(window).spec_focused_rel_widget_path(),
{
    match copy_opt_path(window.focused_rel_widget_path()) {
        Some(rel_widget_path) => window_dyn_widget_mut(window, &rel_widget_path),
        None => None,
    }
}

/// Returns the focused widget, or `None`; the same as `dyn_focused_widget`, as the widgets of a
/// window have one type.
pub fn window_focused_widget<T: Window>(window: &T) -> (r: Option<&T::W>)
    ensures
        match window.spec_focused_rel_widget_path() {
            Some(path) => match r {
                Some(w) => window_widget(*window, path) == Some(*w),
                None => window_widget(*window, path) is None,
            },
            None => r is None,
        },
{
    dyn_focused_widget(window)
}

/// Returns the mutable focused widget, or `None`; the same as `dyn_focused_widget_mut`, as the
/// widgets of a window have one type.
pub fn window_focused_widget_mut<T: Window>(window: &mut T) -> (r: Option<&mut T::W>)
    ensures
        match old(window).spec_focused_rel_widget_path() {
            Some(path) => match r {
                Some(w) => window_widget(*old(window), path) == Some(*w) && window_widget(*final(window), path) == Some(*final(w)),
                None => window_widget(*old(window), path) is None,
            },
            None => r is None,
        },
        final(window).spec_focused_rel_widget_path() == old(window).spec_focused_rel_widget_path(),
{
    dyn_focused_widget_mut(window)
}

/// Unsets the focused relative widget path where it leads to no widget.
///
/// Returns `true` where the path leads to a widget or there is no path, and otherwise whether
/// the window accepted the unsetting.
pub fn update_focused_rel_widget_path<T: Window>(window: &mut T) -> (r: bool)
    ensures
        (match old(window).spec_focused_rel_widget_path() {
            Some(path) => window_widget(*old(window), path) is Some,
            None => true,
        }) ==> r && *final(window) == *old(window),
        (match old(window).spec_focused_rel_widget_path() {
            Some(path) => window_widget(*old(window), path) is None,
            None => false,
        }) ==> {
            &&& r == old(window).spec_accepts_focused_path(None)
            &&& r ==> final(window).spec_focused_rel_widget_path() is None
            &&& !r ==> *final(window) == *old(window)
        },
{
    let is_widget = match window.focused_rel_widget_path() {
        Some(rel_widget_path) => window_dyn_widget(window, rel_widget_path).is_some(),
        None => true,
    };
    if !is_widget {
        window.set_only_focused_rel_widget_path(None)
    } else {
        true
    }
}

/// Moves the focus to the previous focusable widget.
///
/// Returns `None` where the search fails or the window refuses the new path.
pub fn prev_focused_widget<T: Window>(window: &mut T) -> (r: Option<()>)
    requires
        walkable::<T::W>(),
    ensures
        prev_or_next_focused_of(*old(window), Dir::Prev, false) is None ==> r is None && *final(window) == *old(window),
        r is Some ==> (prev_or_next_focused_of(*old(window), Dir::Prev, false) matches Some(t)
            && final(window).spec_focused_rel_widget_path() == t),
        r is Some ==> focus_moved(*old(window), *final(window)),
        r is None ==> match prev_or_next_focused_of(*old(window), Dir::Prev, false) {
            Some(t) => focus_move_failed(*old(window), *final(window), t),
            None => true,
        },
        match prev_or_next_focused_of(*old(window), Dir::Prev, false) {
            Some(t) => widgets_kept_off(*old(window), *final(window), old(window).spec_focused_rel_widget_path(), t),
            None => true,
        },
        match prev_or_next_focused_of(*old(window), Dir::Prev, false) {
            Some(t) => r is Some <==> focus_move_succeeds(*old(window), t),
            None => true,
        },
{
    match prev_or_next_focused_widget(window, Dir::Prev, false) {
        None => None,
        Some(path) => {
            if set_focused_rel_widget_path(window, path) {
                Some(())
            } else {
                None
            }
        },
    }
}

/// Moves the focus to the next focusable widget.
///
/// Returns `None` where the search fails or the window refuses the new path.
pub fn next_focused_widget<T: Window>(window: &mut T) -> (r: Option<()>)
    requires
        walkable::<T::W>(),
    ensures
        prev_or_next_focused_of(*old(window), Dir::Next, false) is None ==> r is None && *final(window) == *old(window),
        r is Some ==> (prev_or_next_focused_of(*old(window), Dir::Next, false) matches Some(t)
            && final(window).spec_focused_rel_widget_path() == t),
        r is Some ==> focus_moved(*old(window), *final(window)),
        r is None ==> match prev_or_next_focused_of(*old(window), Dir::Next, false) {
            Some(t) => focus_move_failed(*old(window), *final(window), t),
            None => true,
        },
        match prev_or_next_focused_of(*old(window), Dir::Next, false) {
            Some(t) => widgets_kept_off(*old(window), *final(window), old(window).spec_focused_rel_widget_path(), t),
            None => true,
        },
        match prev_or_next_focused_of(*old(window), Dir::Next, false) {
            Some(t) => r is Some <==> focus_move_succeeds(*old(window), t),
            None => true,
        },
{
    match prev_or_next_focused_widget(window, Dir::Next, false) {
        None => None,
        Some(path) => {
            if set_focused_rel_widget_path(window, path) {
                Some(())
            } else {
                None
            }
        },
    }
}

/// The relative widget path that the focus moves up to from the path cut to its first `m`
/// widget index pairs: the longest shorter prefix whose widget is focusable, or the whole path
/// where there is none; `None` where a prefix leads to no widget.
pub open spec fn up_target_from<T: Window>(window: T, path: Seq<WidgetIndexPair>, m: nat) -> Option<Seq<WidgetIndexPair>>
    decreases m,
{
    if m > 1 {
        let t = path.take(m - 1);
        match window_widget(window, t) {
            None => None,
            Some(w) => {
                if w.spec_is_focusable() {
                    Some(t)
                } else {
                    up_target_from(window, path, (m - 1) as nat)
                }
            },
        }
    } else {
        Some(path)
    }
}

/// Moves the focus up to the nearest focusable ancestor of the focused widget.
///
/// Returns `Some(())` without a focused widget. Returns `None` where the focused widget is
/// missing or not focusable, an ancestor is missing, or the window refuses the new path.
pub fn up_focused_widget<T: Window>(window: &mut T) -> (r: Option<()>)
    ensures
        old(window).spec_focused_rel_widget_path() is None ==> r == Some(()) && *final(window) == *old(window),
        old(window).spec_focused_rel_widget_path() matches Some(path) ==> {
            &&& (match window_widget(*old(window), path) {
                Some(w) => !w.spec_is_focusable(),
                None => true,
            }) ==> r is None && *final(window) == *old(window)
            &&& up_target_from(*old(window), path, path.len()) is None ==> r is None && *final(window) == *old(window)
            &&& r is Some ==> (up_target_from(*old(window), path, path.len()) matches Some(t)
                && final(window).spec_focused_rel_widget_path() == Some(t))
            &&& r is Some ==> focus_moved(*old(window), *final(window))
            &&& (r is None && (match window_widget(*old(window), path) {
                Some(w) => w.spec_is_focusable(),
                None => false,
            })) ==> match up_target_from(*old(window), path, path.len()) {
                Some(t) => focus_move_failed(*old(window), *final(window), Some(t)),
                None => true,
            }
            &&& match up_target_from(*old(window), path, path.len()) {
                Some(t) => widgets_kept_off(*old(window), *final(window), Some(path), Some(t)),
                None => true,
            }
            &&& (match window_widget(*old(window), path) {
                Some(w) => w.spec_is_focusable(),
                None => false,
            }) ==> match up_target_from(*old(window), path, path.len()) {
                Some(t) => r is Some <==> focus_move_succeeds(*old(window), Some(t)),
                None => true,
            }
        },
{
    let rel_widget_path = match copy_opt_path(window.focused_rel_widget_path()) {
        Some(p) => p,
        None => return Some(()),
    };
    let ghost path = rel_widget_path@;
    match window_dyn_widget(window, &rel_widget_path) {
        Some(widget) => {
            if !widget.is_focusable() {
                return None;
            }
        },
        None => return None,
    }
    let mut tmp_rel_widget_path = rel_widget_path.copy();
    let mut new_rel_widget_path = rel_widget_path.copy();
    proof {
        assert(tmp_rel_widget_path@ =~= path.take(path.len() as int));
    }
    loop
        invariant_except_break
            tmp_rel_widget_path@ == path.take(tmp_rel_widget_path@.len() as int),
            new_rel_widget_path@ == path,
            up_target_from(*window, path, tmp_rel_widget_path@.len()) == up_target_from(*window, path, path.len()),
        invariant
            1 <= tmp_rel_widget_path@.len() <= path.len(),
            *window == *old(window),
            old(window).spec_focused_rel_widget_path() == Some(path),
        ensures
            up_target_from(*window, path, path.len()) == Some(new_rel_widget_path@),
        decreases tmp_rel_widget_path@.len(),
    {
        let ghost m = tmp_rel_widget_path@.len();
        if tmp_rel_widget_path.pop().is_some() {
            proof {
                assert(tmp_rel_widget_path@ =~= path.take(m - 1));
            }
            match window_dyn_widget(window, &tmp_rel_widget_path) {
                Some(widget) => {
                    if widget.is_focusable() {
                        new_rel_widget_path = tmp_rel_widget_path.copy();
                        break;
                    }
                },
                None => return None,
            }
        } else {
            break;
        }
    }
    if set_focused_rel_widget_path(window, Some(new_rel_widget_path)) {
        Some(())
    } else {
        None
    }
}

/// Moves the focus down to the first focusable widget under the focused widget, or to the
/// first focusable widget where no widget is focused.
///
/// Returns `Some(())` where there is no such widget, and `None` where the search fails or the
/// window refuses the new path.
pub fn down_focused_widget<T: Window>(window: &mut T) -> (r: Option<()>)
    requires
        walkable::<T::W>(),
    ensures
        prev_or_next_focused_of(*old(window), Dir::Next, true) is None ==> r is None && *final(window) == *old(window),
        prev_or_next_focused_of(*old(window), Dir::Next, true) == Some(None::<Seq<WidgetIndexPair>>) ==> r == Some(()) && *final(window) == *old(window),
        r is Some ==> (prev_or_next_focused_of(*old(window), Dir::Next, true) matches Some(t)
            && (t matches Some(p) ==> final(window).spec_focused_rel_widget_path() == Some(p) && focus_moved(*old(window), *final(window)))),
        r is None ==> match prev_or_next_focused_of(*old(window), Dir::Next, true) {
            Some(Some(p)) => focus_move_failed(*old(window), *final(window), Some(p)),
            _ => true,
        },
        match prev_or_next_focused_of(*old(window), Dir::Next, true) {
            Some(t) => widgets_kept_off(*old(window), *final(window), old(window).spec_focused_rel_widget_path(), t),
            None => true,
        },
        match prev_or_next_focused_of(*old(window), Dir::Next, true) {
            Some(Some(p)) => r is Some <==> focus_move_succeeds(*old(window), Some(p)),
            _ => true,
        },
{
    match prev_or_next_focused_widget(window, Dir::Next, true) {
        None => None,
        Some(Some(rel_widget_path)) => {
            if set_focused_rel_widget_path(window, Some(rel_widget_path)) {
                Some(())
            } else {
                None
            }
        },
        Some(None) => Some(()),
    }
}

/// Descending along two paths one after the other is descending along the joined path.
pub proof fn lemma_descend_join<W: Widget>(w: W, a: Seq<WidgetIndexPair>, b: Seq<WidgetIndexPair>)
    ensures
        widget_descend(w, a + b) == match widget_descend(w, a) {
            Some(x) => widget_descend(x, b),
            None => None,
        },
    decreases a.len(),
{
    if a.len() > 0 {
        assert((a + b).drop_first() =~= a.drop_first() + b);
        assert((a + b)[0] == a[0]);
        match w.spec_child(a[0]) {
            Some(c) => lemma_descend_join(c, a.drop_first(), b),
            None => {},
        }
    } else {
        assert(a + b =~= b);
    }
}

/// A path that the search for a focusable widget finds under a widget leads to a focusable
/// widget.
pub proof fn lemma_search_finds_focusable<W: Widget>(w: W, idx_pair: Option<WidgetIndexPair>, dir: Dir)
    requires
        walkable::<W>(),
    ensures
        search_from(w, idx_pair, dir) matches Some(Some(p)) ==> (widget_descend(w, p) matches Some(x) && x.spec_is_focusable()),
    decreases w.spec_rank(), walk_measure(w, idx_pair, dir),
{
    match step_of(w, idx_pair, dir) {
        None => {},
        Some(q) => match w.spec_child(q) {
            None => {},
            Some(c) => {
                if c.spec_is_focusable() {
                    assert(search_from(w, idx_pair, dir) == Some(Some(seq![q])));
                    assert(seq![q].drop_first() =~= Seq::<WidgetIndexPair>::empty());
                    assert(seq![q][0] == q);
                    assert(widget_descend(c, Seq::<WidgetIndexPair>::empty()) == Some(c));
                    assert(widget_descend(w, seq![q]) == Some(c));
                } else {
                    assert(w.spec_next(idx_pair) == step_of(w, idx_pair, dir) || w.spec_prev(idx_pair) == step_of(w, idx_pair, dir));
                    lemma_search_finds_focusable(c, None, dir);
                    lemma_search_finds_focusable(w, Some(q), dir);
                    match search_from(c, None, dir) {
                        Some(Some(p)) => {
                            assert(search_from(w, idx_pair, dir) == Some(Some(seq![q] + p)));
                            assert((seq![q] + p).drop_first() =~= p);
                            assert((seq![q] + p)[0] == q);
                            assert(widget_descend(w, seq![q] + p) == widget_descend(c, p));
                        },
                        Some(None) => {
                            assert(search_from(w, idx_pair, dir) == search_from(w, Some(q), dir));
                        },
                        None => {},
                    }
                }
            },
        },
    }
}

/// Descending from the widget of a nonempty path of a window along another path is descending
/// from the window along the joined path.
pub proof fn lemma_window_widget_join<T: Window>(window: T, a: Seq<WidgetIndexPair>, b: Seq<WidgetIndexPair>)
    requires
        a.len() > 0,
    ensures
        window_widget(window, a + b) == match window_widget(window, a) {
            Some(x) => widget_descend(x, b),
            None => None,
        },
{
    assert((a + b)[0] == a[0]);
    assert((a + b).drop_first() =~= a.drop_first() + b);
    match window.spec_child(a[0]) {
        Some(c) => lemma_descend_join(c, a.drop_first(), b),
        None => {},
    }
}

proof fn lemma_resume_finds_focusable<T: Window>(
    window: T,
    path: Seq<WidgetIndexPair>,
    j: nat,
    start: Option<WidgetIndexPair>,
    dir: Dir,
    is_stop_for_none: bool,
)
    requires
        walkable::<T::W>(),
        j < path.len(),
    ensures
        resume_from(window, path, j, start, dir, is_stop_for_none) matches Some(Some(p)) ==>
            (window_widget(window, p) matches Some(x) && x.spec_is_focusable()),
    decreases j,
{
    let prefix = path.take(j + 1 as int);
    match window_widget(window, prefix) {
        None => {},
        Some(w) => {
            lemma_search_finds_focusable(w, start, dir);
            lemma_search_finds_focusable(w, None, dir);
            match search_from(w, start, dir) {
                Some(Some(p)) => lemma_window_widget_join(window, prefix, p),
                _ => {},
            }
            match search_from(w, None, dir) {
                Some(Some(p)) => lemma_window_widget_join(window, prefix, p),
                _ => {},
            }
            if j > 0 {
                lemma_resume_finds_focusable(window, path, (j - 1) as nat, Some(path[j as int]), dir, is_stop_for_none);
            }
        },
    }
}

/// Focus navigation lands only on focusable widgets: the relative widget path that the search
/// for the previous, next or first inner focusable widget gives leads to a focusable widget.
pub proof fn lemma_focus_lands_on_focusable<T: Window>(window: T, dir: Dir, is_down: bool)
    requires
        walkable::<T::W>(),
    ensures
        prev_or_next_focused_of(window, dir, is_down) matches Some(Some(p)) ==>
            (window_widget(window, p) matches Some(x) && x.spec_is_focusable()),
{
    match window.spec_focused_rel_widget_path() {
        Some(path) => {
            if path.len() > 0 {
                if is_down {
                    lemma_resume_finds_focusable(window, path, (path.len() - 1) as nat, None, dir, true);
                } else if path.len() > 1 {
                    lemma_resume_finds_focusable(window, path, (path.len() - 2) as nat, Some(path.last()), dir, false);
                } else {
                    assert(seq![path[0]] =~= path);
                }
            }
        },
        None => match window.spec_content_index_pair() {
            None => {},
            Some(c) => match window.spec_child(c) {
                None => {},
                Some(w) => {
                    assert(seq![c].drop_first() =~= Seq::<WidgetIndexPair>::empty());
                    lemma_search_finds_focusable(w, None, dir);
                    match search_from(w, None, dir) {
                        Some(Some(p)) => {
                            lemma_window_widget_join(window, seq![c], p);
                        },
                        _ => {},
                    }
                },
            },
        },
    }
}

} // verus!
