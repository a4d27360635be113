//! A window context: a theme and a window container, with the index of the current window, for
//! which an event is handled, and the index of the focused window.
use vstd::prelude::*;
use crate::types::{AbsWidgetPath, Pos, WidgetIndexPair, WindowIndex};
use crate::window::{window_widget, Window};
use crate::window_container::{add_outcome, remove_outcome, set_parent_outcome, unset_parent_outcome, widget_changed_at, WindowContainer};

verus! {

/// A window context.
///
/// The window context holds the theme and the window container, and the indices of the current
/// window and the focused window, which need not be indices of windows in the container.
pub struct WindowContext<T, Th> {
    theme: Th,
    window_container: WindowContainer<T>,
    current_window_index: Option<WindowIndex>,
    focused_window_index: Option<WindowIndex>,
}

/// The window under the index in the window container, or `None`.
pub open spec fn container_window<T: Window>(c: WindowContainer<T>, idx: Option<WindowIndex>) -> Option<T> {
    match idx {
        Some(i) => {
            if c.used_indices().contains(i.0) {
                Some(c.window_map()[i.0])
            } else {
                None
            }
        },
        None => None,
    }
}

impl<T: Window, Th> WindowContext<T, Th> {
    pub closed spec fn spec_theme(&self) -> Th {
        self.theme
    }

    pub closed spec fn spec_window_container(&self) -> WindowContainer<T> {
        self.window_container
    }

    pub closed spec fn spec_current_window_index(&self) -> Option<WindowIndex> {
        self.current_window_index
    }

    pub closed spec fn spec_focused_window_index(&self) -> Option<WindowIndex> {
        self.focused_window_index
    }

    /// The window container of the window context is well formed.
    pub open spec fn wf(&self) -> bool {
        self.spec_window_container().wf()
    }

    /// Returns a window context with the theme, an empty window container, and no current
    /// window and no focused window.
    pub fn new(theme: Th) -> (r: Self)
        ensures
            r.wf(),
            r.spec_theme() == theme,
            r.spec_window_container().window_map() == Map::<usize, T>::empty(),
            r.spec_window_container().spec_index_counter() is None,
            r.spec_window_container().spec_indices_to_destroy() == Set::<usize>::empty(),
            r.spec_current_window_index() is None,
            r.spec_focused_window_index() is None,
    {
        WindowContext {
            theme,
            window_container: WindowContainer::new(),
            current_window_index: None,
            focused_window_index: None,
        }
    }

    pub fn theme(&self) -> (r: &Th)
        ensures
            *r == self.spec_theme(),
    {
        &self.theme
    }

    pub fn window_container(&self) -> (r: &WindowContainer<T>)
        ensures
            *r == self.spec_window_container(),
    {
        &self.window_container
    }

    /// Returns the mutable window container; the rest of the window context stays.
    pub fn window_container_mut(&mut self) -> (r: &mut WindowContainer<T>)
        ensures
            *r == old(self).spec_window_container(),
            final(self).spec_window_container() == *final(r),
            final(self).spec_theme() == old(self).spec_theme(),
            final(self).spec_current_window_index() == old(self).spec_current_window_index(),
            final(self).spec_focused_window_index() == old(self).spec_focused_window_index(),
    {
        &mut self.window_container
    }

    /// Returns the index of the current window, for which an event is handled, or `None`.
    pub fn current_window_index(&self) -> (r: Option<WindowIndex>)
        ensures
            r == self.spec_current_window_index(),
    {
        self.current_window_index
    }

    /// Sets the index of the current window, for which an event is handled.
    pub fn set_current_window_index(&mut self, idx: Option<WindowIndex>)
        ensures
            final(self).spec_current_window_index() == idx,
            final(self).spec_window_container() == old(self).spec_window_container(),
            final(self).spec_theme() == old(self).spec_theme(),
            final(self).spec_focused_window_index() == old(self).spec_focused_window_index(),
    {
        self.current_window_index = idx;
    }

    pub fn focused_window_index(&self) -> (r: Option<WindowIndex>)
        ensures
            r == self.spec_focused_window_index(),
    {
        self.focused_window_index
    }

    pub fn set_focused_window_index(&mut self, idx: Option<WindowIndex>)
        ensures
            final(self).spec_focused_window_index() == idx,
            final(self).spec_window_container() == old(self).spec_window_container(),
            final(self).spec_theme() == old(self).spec_theme(),
            final(self).spec_current_window_index() == old(self).spec_current_window_index(),
    {
        self.focused_window_index = idx;
    }

    /// Returns the window under the index in the window container, or `None`.
    fn window_for_index(&self, idx: Option<WindowIndex>) -> (r: Option<&T>)
        ensures
            match r {
                Some(w) => container_window(self.spec_window_container(), idx) == Some(*w),
                None => container_window(self.spec_window_container(), idx) is None,
            },
    {
        match idx {
            Some(i) => self.window_container.dyn_window(i),
            None => None,
        }
    }

    /// Returns the mutable window under the index in the window container, or `None`; the rest
    /// of the window context stays.
    fn window_for_index_mut(&mut self, idx: Option<WindowIndex>) -> (r: Option<&mut T>)
        requires
            old(self).wf(),
        ensures
            final(self).wf(),
            match r {
                Some(w) => {
                    &&& container_window(old(self).spec_window_container(), idx) == Some(*w)
                    &&& final(self).spec_window_container().window_map()
                        == old(self).spec_window_container().window_map().insert((idx->0).0, *final(w))
                },
                None => {
                    &&& container_window(old(self).spec_window_container(), idx) is None
                    &&& final(self).spec_window_container().window_map() == old(self).spec_window_container().window_map()
                },
            },
            final(self).spec_window_container().used_indices() == old(self).spec_window_container().used_indices(),
            final(self).spec_window_container().spec_indices_to_destroy()
                == old(self).spec_window_container().spec_indices_to_destroy(),
            final(self).spec_theme() == old(self).spec_theme(),
            final(self).spec_current_window_index() == old(self).spec_current_window_index(),
            final(self).spec_focused_window_index() == old(self).spec_focused_window_index(),
    {
        match idx {
            Some(i) => self.window_container.dyn_window_mut(i),
            None => None,
        }
    }

    /// Returns the current window, or `None`.
    pub fn dyn_current_window(&self) -> (r: Option<&T>)
        ensures
            match r {
                Some(w) => container_window(self.spec_window_container(), self.spec_current_window_index()) == Some(*w),
                None => container_window(self.spec_window_container(), self.spec_current_window_index()) is None,
            },
    {
        self.window_for_index(self.current_window_index)
    }

    /// Returns the mutable current window, or `None`.
    pub fn dyn_current_window_mut(&mut self) -> (r: Option<&mut T>)
        requires
            old(self).wf(),
        ensures
            final(self).wf(),
            match r {
                Some(w) => {
                    &&& container_window(old(self).spec_window_container(), old(self).spec_current_window_index()) == Some(*w)
                    &&& final(self).spec_window_container().window_map() == old(self).spec_window_container().window_map().insert(
                        (old(self).spec_current_window_index()->0).0, *final(w))
                },
                None => {
                    &&& container_window(old(self).spec_window_container(), old(self).spec_current_window_index()) is None
                    &&& final(self).spec_window_container().window_map() == old(self).spec_window_container().window_map()
                },
            },
            final(self).spec_window_container().used_indices() == old(self).spec_window_container().used_indices(),
            final(self).spec_current_window_index() == old(self).spec_current_window_index(),
            final(self).spec_focused_window_index() == old(self).spec_focused_window_index(),
    {
        let idx = self.current_window_index;
        self.window_for_index_mut(idx)
    }

    /// Returns the current window, or `None`; the same as `dyn_current_window`.
    pub fn current_window(&self) -> (r: Option<&T>)
        ensures
            match r {
                Some(w) => container_window(self.spec_window_container(), self.spec_current_window_index()) == Some(*w),
                None => container_window(self.spec_window_container(), self.spec_current_window_index()) is None,
            },
    {
        self.dyn_current_window()
    }

    /// Returns the mutable current window, or `None`; the same as `dyn_current_window_mut`.
    pub fn current_window_mut(&mut self) -> (r: Option<&mut T>)
        requires
            old(self).wf(),
        ensures
            final(self).wf(),
            match r {
                Some(w) => {
                    &&& container_window(old(self).spec_window_container(), old(self).spec_current_window_index()) == Some(*w)
                    &&& final(self).spec_window_container().window_map() == old(self).spec_window_container().window_map().insert(
                        (old(self).spec_current_window_index()->0).0, *final(w))
                },
                None => {
                    &&& container_window(old(self).spec_window_container(), old(self).spec_current_window_index()) is None
                    &&& final(self).spec_window_container().window_map() == old(self).spec_window_container().window_map()
                },
            },
            final(self).spec_window_container().used_indices() == old(self).spec_window_container().used_indices(),
            final(self).spec_current_window_index() == old(self).spec_current_window_index(),
            final(self).spec_focused_window_index() == old(self).spec_focused_window_index(),
    {
        self.dyn_current_window_mut()
    }

    /// Returns the focused window, or `None`.
    pub fn dyn_focused_window(&self) -> (r: Option<&T>)
        ensures
            match r {
                Some(w) => container_window(self.spec_window_container(), self.spec_focused_window_index()) == Some(*w),
                None => container_window(self.spec_window_container(), self.spec_focused_window_index()) is None,
            },
    {
        self.window_for_index(self.focused_window_index)
    }

    /// Returns the mutable focused window, or `None`.
    pub fn dyn_focused_window_mut(&mut self) -> (r: Option<&mut T>)
        requires
            old(self).wf(),
        ensures
            final(self).wf(),
            match r {
                Some(w) => {
                    &&& container_window(old(self).spec_window_container(), old(self).spec_focused_window_index()) == Some(*w)
                    &&& final(self).spec_window_container().window_map() == old(self).spec_window_container().window_map().insert(
                        (old(self).spec_focused_window_index()->0).0, *final(w))
                },
                None => {
                    &&& container_window(old(self).spec_window_container(), old(self).spec_focused_window_index()) is None
                    &&& final(self).spec_window_container().window_map() == old(self).spec_window_container().window_map()
                },
            },
            final(self).spec_window_container().used_indices() == old(self).spec_window_container().used_indices(),
            final(self).spec_current_window_index() == old(self).spec_current_window_index(),
            final(self).spec_focused_window_index() == old(self).spec_focused_window_index(),
    {
        let idx = self.focused_window_index;
        self.window_for_index_mut(idx)
    }

    /// Returns the focused window, or `None`; the same as `dyn_focused_window`.
    pub fn focused_window(&self) -> (r: Option<&T>)
        ensures
            match r {
                Some(w) => container_window(self.spec_window_container(), self.spec_focused_window_index()) == Some(*w),
                None => container_window(self.spec_window_container(), self.spec_focused_window_index()) is None,
            },
    {
        self.dyn_focused_window()
    }

    /// Returns the mutable focused window, or `None`; the same as `dyn_focused_window_mut`.
    pub fn focused_window_mut(&mut self) -> (r: Option<&mut T>)
        requires
            old(self).wf(),
        ensures
            final(self).wf(),
            match r {
                Some(w) => {
                    &&& container_window(old(self).spec_window_container(), old(self).spec_focused_window_index()) == Some(*w)
                    &&& final(self).spec_window_container().window_map() == old(self).spec_window_container().window_map().insert(
                        (old(self).spec_focused_window_index()->0).0, *final(w))
                },
                None => {
                    &&& container_window(old(self).spec_window_container(), old(self).spec_focused_window_index()) is None
                    &&& final(self).spec_window_container().window_map() == old(self).spec_window_container().window_map()
                },
            },
            final(self).spec_window_container().used_indices() == old(self).spec_window_container().used_indices(),
            final(self).spec_current_window_index() == old(self).spec_current_window_index(),
            final(self).spec_focused_window_index() == old(self).spec_focused_window_index(),
    {
        self.dyn_focused_window_mut()
    }

    /// Adds the window to the window container; see `WindowContainer::add_dyn`.
    pub fn add_dyn_window(&mut self, window: T) -> (r: Option<WindowIndex>)
        requires
            old(self).wf(),
        ensures
            add_outcome(old(self).spec_window_container(), final(self).spec_window_container(), window, r),
            final(self).spec_current_window_index() == old(self).spec_current_window_index(),
            final(self).spec_focused_window_index() == old(self).spec_focused_window_index(),
    {
        self.window_container.add_dyn(window)
    }

    /// Adds the window to the window container; the same as `add_dyn_window`.
    pub fn add_window(&mut self, window: T) -> (r: Option<WindowIndex>)
        requires
            old(self).wf(),
        ensures
            add_outcome(old(self).spec_window_container(), final(self).spec_window_container(), window, r),
            final(self).spec_current_window_index() == old(self).spec_current_window_index(),
            final(self).spec_focused_window_index() == old(self).spec_focused_window_index(),
    {
        self.window_container.add_dyn(window)
    }

    /// Removes the window from the window container; see `WindowContainer::remove`.
    pub fn remove_window(&mut self, idx: WindowIndex) -> (r: Option<T>)
        requires
            old(self).wf(),
        ensures
            remove_outcome(old(self).spec_window_container(), final(self).spec_window_container(), idx, r),
            final(self).spec_current_window_index() == old(self).spec_current_window_index(),
            final(self).spec_focused_window_index() == old(self).spec_focused_window_index(),
    {
        self.window_container.remove(idx)
    }

    /// Returns the window under the index, or `None`.
    pub fn dyn_window(&self, idx: WindowIndex) -> (r: Option<&T>)
        ensures
            match r {
                Some(w) => container_window(self.spec_window_container(), Some(idx)) == Some(*w),
                None => container_window(self.spec_window_container(), Some(idx)) is None,
            },
    {
        self.window_container.dyn_window(idx)
    }

    /// Returns the mutable window under the index, or `None`.
    pub fn dyn_window_mut(&mut self, idx: WindowIndex) -> (r: Option<&mut T>)
        requires
            old(self).wf(),
        ensures
            final(self).wf(),
            match r {
                Some(w) => {
                    &&& container_window(old(self).spec_window_container(), Some(idx)) == Some(*w)
                    &&& final(self).spec_window_container().window_map()
                        == old(self).spec_window_container().window_map().insert(idx.0, *final(w))
                },
                None => {
                    &&& container_window(old(self).spec_window_container(), Some(idx)) is None
                    &&& final(self).spec_window_container().window_map() == old(self).spec_window_container().window_map()
                },
            },
            final(self).spec_window_container().used_indices() == old(self).spec_window_container().used_indices(),
            final(self).spec_current_window_index() == old(self).spec_current_window_index(),
            final(self).spec_focused_window_index() == old(self).spec_focused_window_index(),
    {
        self.window_container.dyn_window_mut(idx)
    }

    /// Returns the window under the index, or `None`; the same as `dyn_window`.
    pub fn window(&self, idx: WindowIndex) -> (r: Option<&T>)
        ensures
            match r {
                Some(w) => container_window(self.spec_window_container(), Some(idx)) == Some(*w),
                None => container_window(self.spec_window_container(), Some(idx)) is None,
            },
    {
        self.window_container.dyn_window(idx)
    }

    /// Returns the mutable window under the index, or `None`; the same as `dyn_window_mut`.
    pub fn window_mut(&mut self, idx: WindowIndex) -> (r: Option<&mut T>)
        requires
            old(self).wf(),
        ensures
            final(self).wf(),
            match r {
                Some(w) => {
                    &&& container_window(old(self).spec_window_container(), Some(idx)) == Some(*w)
                    &&& final(self).spec_window_container().window_map()
                        == old(self).spec_window_container().window_map().insert(idx.0, *final(w))
                },
                None => {
                    &&& container_window(old(self).spec_window_container(), Some(idx)) is None
                    &&& final(self).spec_window_container().window_map() == old(self).spec_window_container().window_map()
                },
            },
            final(self).spec_window_container().used_indices() == old(self).spec_window_container().used_indices(),
            final(self).spec_current_window_index() == old(self).spec_current_window_index(),
            final(self).spec_focused_window_index() == old(self).spec_focused_window_index(),
    {
        self.window_container.dyn_window_mut(idx)
    }

    /// Calls the closure on the window under the index; see `WindowContainer::abs_widget_path1`.
    pub fn abs_widget_path1<F>(&mut self, idx: WindowIndex, f: F) -> (r: Option<AbsWidgetPath>)
        where F: FnOnce(&mut T) -> Option<WidgetIndexPair>,
        requires
            old(self).wf(),
            forall|w: &mut T| #[trigger] call_requires(f, (w,)),
        ensures
            final(self).wf(),
            final(self).spec_window_container().used_indices() == old(self).spec_window_container().used_indices(),
            !old(self).spec_window_container().used_indices().contains(idx.0) ==> r is None,
            match r {
                Some(p) => p.window_index == idx && p.rel_widget_path@.len() == 1,
                None => true,
            },
            old(self).spec_window_container().used_indices().contains(idx.0) ==> exists|w: &mut T, res: Option<WidgetIndexPair>| {
                &&& *w == old(self).spec_window_container().window_map()[idx.0]
                &&& #[trigger] call_ensures(f, (w,), res)
                &&& final(self).spec_window_container().window_map() == old(self).spec_window_container().window_map().insert(idx.0, *final(w))
                &&& match res {
                    Some(pair) => r matches Some(p) && p.rel_widget_path@ == seq![pair],
                    None => r is None,
                }
            },
            final(self).spec_current_window_index() == old(self).spec_current_window_index(),
            final(self).spec_focused_window_index() == old(self).spec_focused_window_index(),
    {
        self.window_container.abs_widget_path1(idx, f)
    }

    /// Returns the widget for the absolute widget path, or `None`.
    pub fn dyn_widget(&self, path: &AbsWidgetPath) -> (r: Option<&T::W>)
        ensures
            match r {
                Some(w) => container_window(self.spec_window_container(), Some(path.window_index)) matches Some(win)
                    && window_widget(win, path.rel_widget_path@) == Some(*w),
                None => container_window(self.spec_window_container(), Some(path.window_index)) matches Some(win)
                    ==> window_widget(win, path.rel_widget_path@) is None,
            },
    {
        self.window_container.dyn_widget(path)
    }

    /// Returns the mutable widget for the absolute widget path, or `None`.
    pub fn dyn_widget_mut(&mut self, path: &AbsWidgetPath) -> (r: Option<&mut T::W>)
        requires
            old(self).wf(),
        ensures
            final(self).wf(),
            match r {
                Some(w) => {
                    &&& container_window(old(self).spec_window_container(), Some(path.window_index)) matches Some(win)
                        && window_widget(win, path.rel_widget_path@) == Some(*w)
                    &&& container_window(final(self).spec_window_container(), Some(path.window_index)) matches Some(win)
                        && window_widget(win, path.rel_widget_path@) == Some(*final(w))
                },
                None => container_window(old(self).spec_window_container(), Some(path.window_index)) matches Some(win)
                    ==> window_widget(win, path.rel_widget_path@) is None,
            },
            final(self).spec_window_container().used_indices() == old(self).spec_window_container().used_indices(),
            final(self).spec_current_window_index() == old(self).spec_current_window_index(),
            final(self).spec_focused_window_index() == old(self).spec_focused_window_index(),
    {
        self.window_container.dyn_widget_mut(path)
    }

    /// Returns the widget for the absolute widget path, or `None`; the same as `dyn_widget`.
    pub fn widget(&self, path: &AbsWidgetPath) -> (r: Option<&T::W>)
        ensures
            match r {
                Some(w) => container_window(self.spec_window_container(), Some(path.window_index)) matches Some(win)
                    && window_widget(win, path.rel_widget_path@) == Some(*w),
                None => container_window(self.spec_window_container(), Some(path.window_index)) matches Some(win)
                    ==> window_widget(win, path.rel_widget_path@) is None,
            },
    {
        self.window_container.dyn_widget(path)
    }

    /// Returns the mutable widget for the absolute widget path, or `None`; the same as
    /// `dyn_widget_mut`.
    pub fn widget_mut(&mut self, path: &AbsWidgetPath) -> (r: Option<&mut T::W>)
        requires
            old(self).wf(),
        ensures
            final(self).wf(),
            match r {
                Some(w) => {
                    &&& container_window(old(self).spec_window_container(), Some(path.window_index)) matches Some(win)
                        && window_widget(win, path.rel_widget_path@) == Some(*w)
                    &&& container_window(final(self).spec_window_container(), Some(path.window_index)) matches Some(win)
                        && window_widget(win, path.rel_widget_path@) == Some(*final(w))
                },
                None => container_window(old(self).spec_window_container(), Some(path.window_index)) matches Some(win)
                    ==> window_widget(win, path.rel_widget_path@) is None,
            },
            final(self).spec_window_container().used_indices() == old(self).spec_window_container().used_indices(),
            final(self).spec_current_window_index() == old(self).spec_current_window_index(),
            final(self).spec_focused_window_index() == old(self).spec_focused_window_index(),
    {
        self.window_container.dyn_widget_mut(path)
    }

    /// Calls the closure on the widget for the absolute widget path; see
    /// `WindowContainer::abs_widget_path`.
    pub fn abs_widget_path<F>(&mut self, path: &AbsWidgetPath, f: F) -> (r: Option<AbsWidgetPath>)
        where F: FnOnce(&mut T::W) -> Option<WidgetIndexPair>,
        requires
            old(self).wf(),
            forall|w: &mut T::W| #[trigger] call_requires(f, (w,)),
        ensures
            final(self).wf(),
            final(self).spec_window_container().used_indices() == old(self).spec_window_container().used_indices(),
            (match container_window(old(self).spec_window_container(), Some(path.window_index)) {
                Some(win) => window_widget(win, path.rel_widget_path@) is None,
                None => true,
            }) ==> r is None,
            match r {
                Some(p) => {
                    &&& p.window_index == path.window_index
                    &&& p.rel_widget_path@.len() == path.rel_widget_path@.len() + 1
                    &&& p.rel_widget_path@.drop_last() == path.rel_widget_path@
                },
                None => true,
            },
            (match container_window(old(self).spec_window_container(), Some(path.window_index)) {
                Some(win) => window_widget(win, path.rel_widget_path@) is Some,
                None => false,
            }) ==> exists|w: &mut T::W, res: Option<WidgetIndexPair>| {
                &&& Some(*w) == window_widget(old(self).spec_window_container().window_map()[path.window_index.0], path.rel_widget_path@)
                &&& #[trigger] call_ensures(f, (w,), res)
                &&& window_widget(final(self).spec_window_container().window_map()[path.window_index.0], path.rel_widget_path@) == Some(*final(w))
                &&& widget_changed_at(old(self).spec_window_container(), final(self).spec_window_container(), path.window_index.0, path.rel_widget_path@)
                &&& match res {
                    Some(pair) => r matches Some(p) && p.rel_widget_path@ == path.rel_widget_path@.push(pair),
                    None => r is None,
                }
            },
            final(self).spec_current_window_index() == old(self).spec_current_window_index(),
            final(self).spec_focused_window_index() == old(self).spec_focused_window_index(),
    {
        self.window_container.abs_widget_path(path, f)
    }

    /// Sets the parent of the child window; see `WindowContainer::set_parent`.
    pub fn set_parent_window(&mut self, child_idx: WindowIndex, parent_idx: WindowIndex, pos: Pos<i32>) -> (r: Option<()>)
        requires
            old(self).wf(),
        ensures
            set_parent_outcome(old(self).spec_window_container(), final(self).spec_window_container(), child_idx, parent_idx, pos, r),
            final(self).spec_current_window_index() == old(self).spec_current_window_index(),
            final(self).spec_focused_window_index() == old(self).spec_focused_window_index(),
    {
        self.window_container.set_parent(child_idx, parent_idx, pos)
    }

    /// Unsets the parent of the child window; see `WindowContainer::unset_parent`.
    pub fn unset_parent_window(&mut self, child_idx: WindowIndex) -> (r: Option<()>)
        requires
            old(self).wf(),
        ensures
            unset_parent_outcome(old(self).spec_window_container(), final(self).spec_window_container(), child_idx, r),
            final(self).spec_current_window_index() == old(self).spec_current_window_index(),
            final(self).spec_focused_window_index() == old(self).spec_focused_window_index(),
    {
        self.window_container.unset_parent(child_idx)
    }
}

} // verus!
