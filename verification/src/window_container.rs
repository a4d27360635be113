//! A window container: windows under reusable window indices, and parent-child relations
//! between the windows.
use vstd::prelude::*;
use std::collections::BTreeMap;
use std::collections::BTreeSet;
use crate::free_indices::{FreeIndices, in_range};
use crate::types::{AbsWidgetPath, Pos, RelWidgetPath, WidgetIndexPair, WindowIndex};
use crate::window::{ChildWindowIndex, ParentWindowIndex, ParentWindowTag, SelfWindowIndex, SelfWindowTag, Window, window_dyn_widget, window_dyn_widget_mut, window_widget, lemma_window_widget_join};
use crate::widget::{paths_diverge, widget_descend};

verus! {

broadcast use {vstd::std_specs::btree::group_btree_axioms, vstd::laws_cmp::group_laws_cmp};

/// Returns a mutable reference to the value under the key.
///
/// This wraps `BTreeMap::get_mut` of std. Its documentation says that it returns a mutable
/// reference to the value under the key or `None` when there is no such key; writing through
/// the reference changes that value and nothing else.
#[verifier::external_body]
pub(crate) fn btree_map_get_mut<V>(m: &mut BTreeMap<usize, V>, k: usize) -> (r: Option<&mut V>)
    ensures
        match r {
            Some(v) => {
                &&& old(m)@.contains_key(k)
                &&& *v == old(m)@[k]
                &&& final(m)@ == old(m)@.insert(k, *final(v))
            },
            None => !old(m)@.contains_key(k) && final(m)@ == old(m)@,
        },
{
    m.get_mut(&k)
}

/// The state of window indices: the used indices are `0..=c` without the free indices, where
/// `c` is the index counter, `c` is used, and no index is used when there is no counter.
pub open spec fn indices_wf(used: Set<usize>, free: FreeIndices, counter: Option<usize>) -> bool {
    &&& free.wf()
    &&& forall|k: int| free.has(k) ==> 0 <= k <= usize::MAX
    &&& match counter {
        None => {
            &&& used == Set::<usize>::empty()
            &&& forall|k: int| !free.has(k)
        },
        Some(c) => {
            &&& used.contains(c)
            &&& forall|k: usize|
                #![trigger used.contains(k)]
                #![trigger free.has(k as int)]
                (used.contains(k) || free.has(k as int)) <==> k <= c
            &&& forall|k: usize|
                #![trigger used.contains(k)]
                #![trigger free.has(k as int)]
                !(used.contains(k) && free.has(k as int))
        },
    }
}

proof fn lemma_wf_at(used: Set<usize>, free: FreeIndices, c: usize, k: usize)
    requires
        indices_wf(used, free, Some(c)),
    ensures
        (used.contains(k) || free.has(k as int)) <==> k <= c,
        !(used.contains(k) && free.has(k as int)),
{
}

/// The sequence holds the used indices in increasing order.
pub open spec fn indices_in_order(used: Set<usize>, ks: Seq<usize>) -> bool {
    &&& forall|i: int, j: int| 0 <= i < j < ks.len() ==> ks[i] < ks[j]
    &&& forall|i: int| 0 <= i < ks.len() ==> used.contains(#[trigger] ks[i])
    &&& forall|k: usize| used.contains(k) ==> ks.contains(k)
}

/// The number of the parent index of the window under the index.
pub open spec fn parent_of<T: Window>(m: Map<usize, T>, k: usize) -> Option<usize> {
    match m[k].spec_parent_index() {
        Some(p) => Some(p.0),
        None => None,
    }
}

/// The least index that is not used.
pub open spec fn least_unused(used: Set<usize>, i: usize) -> bool {
    &&& !used.contains(i)
    &&& forall|j: usize| j < i ==> used.contains(j)
}


/// Two states of window indices with the same used indices have the same index counter and the
/// same free indices.
proof fn indices_determined_by_used(
    used: Set<usize>,
    free1: FreeIndices,
    counter1: Option<usize>,
    free2: FreeIndices,
    counter2: Option<usize>,
)
    requires
        indices_wf(used, free1, counter1),
        indices_wf(used, free2, counter2),
    ensures
        counter1 == counter2,
        forall|k: int| free1.has(k) <==> free2.has(k),
{
    match (counter1, counter2) {
        (Some(c1), Some(c2)) => {
            lemma_wf_at(used, free1, c1, c2);
            lemma_wf_at(used, free2, c2, c1);
            assert forall|k: int| free1.has(k) <==> free2.has(k) by {
                if free1.has(k) {
                    let ku = k as usize;
                    lemma_wf_at(used, free1, c1, ku);
                    lemma_wf_at(used, free2, c2, ku);
                }
                if free2.has(k) {
                    let ku = k as usize;
                    lemma_wf_at(used, free1, c1, ku);
                    lemma_wf_at(used, free2, c2, ku);
                }
            }
        },
        (Some(c1), None) => {
            assert(used.contains(c1));
        },
        (None, Some(c2)) => {
            assert(used.contains(c2));
        },
        (None, None) => {},
    }
}

/// The least unused index after the removal of a used index.
proof fn least_unused_after_remove(used: Set<usize>, idx: usize, i: usize, j: usize)
    requires
        used.contains(idx),
        least_unused(used, i),
        least_unused(used.remove(idx), j),
    ensures
        j == (if idx < i { idx } else { i }),
{
    if idx < i {
        if j < idx {
            assert(used.remove(idx).contains(j));
        }
        assert(!used.remove(idx).contains(idx));
    } else {
        assert(idx != i);
        if j < i {
            assert(used.contains(j));
            assert(used.remove(idx).contains(j) || j == idx);
        }
        if i < j {
            assert(used.remove(idx).contains(i));
        }
    }
}

/// The least unused index is unique.
proof fn least_unused_unique(used: Set<usize>, i: usize, j: usize)
    requires
        least_unused(used, i),
        least_unused(used, j),
    ensures
        i == j,
{
    if i < j {
        assert(used.contains(i));
    }
    if j < i {
        assert(used.contains(j));
    }
}

/// What adding the window does: the window gets the least index that no window has, and the
/// other windows stay; `None` comes when all the indices are used, and nothing changes then.
pub open spec fn add_outcome<T: Window>(o: WindowContainer<T>, f: WindowContainer<T>, window: T, r: Option<WindowIndex>) -> bool {
    &&& f.wf()
    &&& f.spec_indices_to_destroy() =~= o.spec_indices_to_destroy()
    &&& match r {
        Some(idx) => {
            &&& least_unused(o.used_indices(), idx.0)
            &&& f.used_indices() =~= o.used_indices().insert(idx.0)
            &&& forall|k: usize| k != idx.0 && o.used_indices().contains(k)
                ==> f.window_map()[k] == o.window_map()[k]
            &&& f.window_map()[idx.0] == window.spec_indexed(idx)
            &&& f.window_map()[idx.0].spec_index() is None || f.window_map()[idx.0].spec_index() == Some(idx)
            &&& f.window_map()[idx.0].spec_parent_index() == window.spec_parent_index()
            &&& f.window_map()[idx.0].spec_child_indices() =~= window.spec_child_indices()
        },
        None => {
            &&& forall|k: usize| o.used_indices().contains(k)
            &&& f.window_map() =~= o.window_map()
        },
    }
}

/// What removing the window under the index does: the index is freed and marked for
/// destruction, the window leaves its parent and its children lose their parent, as far as the
/// windows take these changes; `None` comes when no window has the index, and nothing changes
/// then.
pub open spec fn remove_outcome<T: Window>(o: WindowContainer<T>, f: WindowContainer<T>, idx: WindowIndex, r: Option<T>) -> bool {
    &&& f.wf()
    &&& r matches Some(w) ==> {
        let w1 = parent_unset_window(o.window_map()[idx.0].spec_unindexed());
        &&& w.spec_index() is None
        &&& w.spec_parent_index() == w1.spec_parent_index()
        &&& w1.spec_child_indices() == o.window_map()[idx.0].spec_child_indices()
        &&& w.spec_child_indices() == w1.spec_child_indices().filter(|k: usize| !w1.spec_accepts_child_removal(WindowIndex(k)))
        &&& w.spec_child_indices().subset_of(w1.spec_child_indices())
        &&& w1.spec_child_indices() =~= Set::<usize>::empty() ==> w == w1
    }
    &&& r is Some ==> (match parent_of(o.window_map(), idx.0) {
        Some(p) => (p != idx.0 && o.used_indices().contains(p)) ==> f.window_map()[p].spec_child_indices() =~= (
            if o.window_map()[p].spec_accepts_child_removal(idx) {
                o.window_map()[p].spec_child_indices().remove(idx.0)
            } else {
                o.window_map()[p].spec_child_indices()
            }),
        None => true,
    })
    &&& r is Some ==> forall|k: usize| #[trigger] f.used_indices().contains(k) && parent_of(o.window_map(), idx.0) != Some(k)
        ==> f.window_map()[k] == (if o.window_map()[idx.0].spec_child_indices().contains(k) {
            parent_unset_window(o.window_map()[k])
        } else {
            o.window_map()[k]
        })
    &&& r is Some <==> o.used_indices().contains(idx.0)
    &&& r is Some ==> f.used_indices() =~= o.used_indices().remove(idx.0)
    &&& r is Some ==> f.spec_indices_to_destroy() =~= o.spec_indices_to_destroy().insert(idx.0)
    &&& r is None ==> f.window_map() =~= o.window_map()
    &&& r is None ==> f.spec_indices_to_destroy() =~= o.spec_indices_to_destroy()
    &&& r matches Some(w) ==> {
        let ow = o.window_map()[idx.0];
        &&& w.spec_parent_index() is None || w.spec_parent_index() == ow.spec_parent_index()
        &&& w.spec_child_indices().subset_of(ow.spec_child_indices())
    }
    &&& r is Some ==> forall|k: usize| #[trigger] f.used_indices().contains(k) ==> {
        let ow = o.window_map()[idx.0];
        &&& f.window_map()[k].spec_parent_index() == o.window_map()[k].spec_parent_index()
            || (f.window_map()[k].spec_parent_index() is None && ow.spec_child_indices().contains(k))
        &&& f.window_map()[k].spec_child_indices() =~= o.window_map()[k].spec_child_indices()
            || (parent_of(o.window_map(), idx.0) == Some(k)
                && f.window_map()[k].spec_child_indices()
                    == o.window_map()[k].spec_child_indices().remove(idx.0))
        &&& parent_of(o.window_map(), idx.0) != Some(k) && !ow.spec_child_indices().contains(k)
            ==> f.window_map()[k] == o.window_map()[k]
    }
}

/// The container changed at most the widget under the relative widget path of the window under
/// the index: the other windows are as they were, and so are the widgets of that window whose
/// paths part from the path; the widgets under the changed widget are its own.
pub open spec fn widget_changed_at<T: Window>(o: WindowContainer<T>, f: WindowContainer<T>, idx: usize, path: Seq<WidgetIndexPair>) -> bool {
    &&& f.window_map() == o.window_map().insert(idx, f.window_map()[idx])
    &&& forall|q: Seq<WidgetIndexPair>| #[trigger] paths_diverge(path, q)
        ==> window_widget(f.window_map()[idx], q) == window_widget(o.window_map()[idx], q)
    &&& forall|t: Seq<WidgetIndexPair>| #[trigger] window_widget(f.window_map()[idx], path + t)
        == match window_widget(f.window_map()[idx], path) {
            Some(x) => widget_descend(x, t),
            None => None,
        }
}

/// One of the first `i` window indices of the sequence is `k`.
spec fn removed_before(v: Seq<WindowIndex>, i: int, k: usize) -> bool {
    exists|j: int| 0 <= j < i && v[j].0 == k
}

/// The window after `unset_parent` is asked of it: without its parent where it has one and
/// accepts, and as it was otherwise.
pub open spec fn parent_unset_window<T: Window>(w: T) -> T {
    if w.spec_parent_index() is Some && w.spec_accepts_parent_unset() {
        w.spec_without_parent()
    } else {
        w
    }
}

/// Whether unsetting the parent of the child succeeds: the child has a parent in the container,
/// accepts to lose it, and the parent then accepts to lose the child.
pub open spec fn unset_parent_succeeds<T: Window>(m: Map<usize, T>, child: usize) -> bool {
    &&& m.dom().contains(child)
    &&& m[child].spec_parent_index() matches Some(p)
    &&& m[child].spec_accepts_parent_unset()
    &&& m.dom().contains(p.0)
    &&& (if p.0 == child { m[child].spec_without_parent() } else { m[p.0] }).spec_accepts_child_removal(WindowIndex(child))
}

/// What unsetting the parent of the child does: the child loses its parent and the parent loses
/// the child, as far as the two windows take the changes; the other windows stay.
pub open spec fn unset_parent_outcome<T: Window>(o: WindowContainer<T>, f: WindowContainer<T>, child_idx: WindowIndex, r: Option<()>) -> bool {
    &&& f.wf()
    &&& r is Some <==> unset_parent_succeeds(o.window_map(), child_idx.0)
    &&& o.used_indices().contains(child_idx.0) && parent_of(o.window_map(), child_idx.0) != Some(child_idx.0)
        ==> f.window_map()[child_idx.0] == parent_unset_window(o.window_map()[child_idx.0])
    &&& (o.used_indices().contains(child_idx.0) && o.window_map()[child_idx.0].spec_parent_index() is Some
        && !o.window_map()[child_idx.0].spec_accepts_parent_unset()) ==> f.window_map() =~= o.window_map()
    &&& (o.used_indices().contains(child_idx.0) && o.window_map()[child_idx.0].spec_parent_index() is Some
        && o.window_map()[child_idx.0].spec_accepts_parent_unset()) ==> f.window_map()[child_idx.0].spec_parent_index() is None
    &&& (match parent_of(o.window_map(), child_idx.0) {
        Some(p) => {
            (p != child_idx.0 && o.used_indices().contains(p) && o.used_indices().contains(child_idx.0)
                && o.window_map()[child_idx.0].spec_accepts_parent_unset()
                && !o.window_map()[p].spec_accepts_child_removal(child_idx)) ==> f.window_map()[p] == o.window_map()[p]
        },
        None => true,
    })
    &&& f.used_indices() =~= o.used_indices()
    &&& f.spec_indices_to_destroy() =~= o.spec_indices_to_destroy()
    &&& r is Some ==> {
        let p = parent_of(o.window_map(), child_idx.0)->0;
        &&& o.used_indices().contains(child_idx.0)
        &&& parent_of(o.window_map(), child_idx.0) is Some
        &&& o.used_indices().contains(p)
        &&& f.window_map()[child_idx.0].spec_parent_index() is None
        &&& f.window_map()[p].spec_child_indices()
            == o.window_map()[p].spec_child_indices().remove(child_idx.0)
    }
    &&& !o.used_indices().contains(child_idx.0) ==> r is None && f.window_map() =~= o.window_map()
    &&& o.used_indices().contains(child_idx.0) && o.window_map()[child_idx.0].spec_parent_index() is None
        ==> r is None && f.window_map() =~= o.window_map()
    &&& o.used_indices().contains(child_idx.0) ==> {
        ||| f.window_map()[child_idx.0].spec_parent_index() is None
        ||| f.window_map()[child_idx.0].spec_parent_index()
            == o.window_map()[child_idx.0].spec_parent_index()
    }
    &&& forall|k: usize| #[trigger] o.used_indices().contains(k) && k != child_idx.0
        && Some(k) != parent_of(o.window_map(), child_idx.0)
        ==> f.window_map()[k] == o.window_map()[k]
    &&& forall|k: usize| #[trigger] o.used_indices().contains(k)
        ==> f.window_map()[k].spec_child_indices() =~= o.window_map()[k].spec_child_indices()
        || (Some(k) == parent_of(o.window_map(), child_idx.0)
            && f.window_map()[k].spec_child_indices()
                == o.window_map()[k].spec_child_indices().remove(child_idx.0))
    &&& forall|k: usize| #[trigger] o.used_indices().contains(k) && k != child_idx.0
        ==> f.window_map()[k].spec_parent_index() == o.window_map()[k].spec_parent_index()
}

/// What setting the parent of the child does: the child leaves its former parent, and on
/// success the child has the parent and the parent has the child; the other windows stay.
pub open spec fn set_parent_outcome<T: Window>(
    o: WindowContainer<T>,
    f: WindowContainer<T>,
    child_idx: WindowIndex,
    parent_idx: WindowIndex,
    pos: Pos<i32>,
    r: Option<()>,
) -> bool {
    &&& f.wf()
    &&& (match parent_of(o.window_map(), child_idx.0) {
        Some(p) => {
            (p != parent_idx.0 && p != child_idx.0 && o.used_indices().contains(p) && o.used_indices().contains(child_idx.0)
                && o.window_map()[child_idx.0].spec_accepts_parent_unset())
                ==> f.window_map()[p].spec_child_indices() =~= (if o.window_map()[p].spec_accepts_child_removal(child_idx) {
                    o.window_map()[p].spec_child_indices().remove(child_idx.0)
                } else {
                    o.window_map()[p].spec_child_indices()
                })
        },
        None => true,
    })
    &&& r is None && o.used_indices().contains(child_idx.0) ==> {
        ||| f.window_map()[child_idx.0].spec_parent_index() is None
        ||| !f.window_map()[child_idx.0].spec_accepts_parent_unset()
    }
    &&& (r is Some && parent_idx.0 != child_idx.0 && parent_of(o.window_map(), child_idx.0) != Some(child_idx.0))
        ==> f.window_map()[child_idx.0] == parent_unset_window(o.window_map()[child_idx.0]).spec_with_parent(parent_idx, pos)
    &&& (parent_idx.0 != child_idx.0 && parent_of(o.window_map(), child_idx.0) != Some(child_idx.0)
        && parent_of(o.window_map(), child_idx.0) != Some(parent_idx.0)) ==> (r is Some <==> {
            &&& o.used_indices().contains(child_idx.0)
            &&& o.used_indices().contains(parent_idx.0)
            &&& parent_unset_window(o.window_map()[child_idx.0]).spec_accepts_parent(parent_idx, pos)
            &&& o.window_map()[parent_idx.0].spec_accepts_child(child_idx)
        })
    &&& f.used_indices() =~= o.used_indices()
    &&& f.spec_indices_to_destroy() =~= o.spec_indices_to_destroy()
    &&& r is Some ==> {
        &&& o.used_indices().contains(child_idx.0)
        &&& o.used_indices().contains(parent_idx.0)
        &&& f.window_map()[child_idx.0].spec_parent_index() == Some(parent_idx)
        &&& f.window_map()[parent_idx.0].spec_child_indices()
            == o.window_map()[parent_idx.0].spec_child_indices().insert(child_idx.0)
    }
    &&& !o.used_indices().contains(child_idx.0) ==> r is None && f.window_map() =~= o.window_map()
    &&& (r is None && parent_idx.0 != child_idx.0 && parent_of(o.window_map(), child_idx.0) != Some(parent_idx.0)
        && o.used_indices().contains(parent_idx.0)) ==> f.window_map()[parent_idx.0] == o.window_map()[parent_idx.0]
    &&& forall|k: usize| #[trigger] o.used_indices().contains(k) && k != child_idx.0 && k != parent_idx.0
        && Some(k) != parent_of(o.window_map(), child_idx.0)
        ==> f.window_map()[k] == o.window_map()[k]
}

/// A window container.
///
/// The window container holds windows under window indices. A new window gets the least index
/// that no window has; the indices of removed windows are kept in free index ranges and
/// reused. The window container also keeps the indices of removed windows that are to be
/// destroyed.
pub struct WindowContainer<T> {
    windows: BTreeMap<usize, T>,
    free_indices: FreeIndices,
    index_counter: Option<usize>,
    indices_to_destroy: BTreeSet<usize>,
}

impl<T: Window> WindowContainer<T> {
    /// The windows under their indices.
    pub closed spec fn window_map(&self) -> Map<usize, T> {
        self.windows@
    }

    /// The used window indices.
    pub open spec fn used_indices(&self) -> Set<usize> {
        self.window_map().dom()
    }

    pub closed spec fn spec_index_counter(&self) -> Option<usize> {
        self.index_counter
    }

    pub closed spec fn spec_free_indices(&self) -> FreeIndices {
        self.free_indices
    }

    pub closed spec fn spec_indices_to_destroy(&self) -> Set<usize> {
        self.indices_to_destroy@
    }

    pub closed spec fn wf(&self) -> bool {
        indices_wf(self.windows@.dom(), self.free_indices, self.index_counter)
    }

    pub fn new() -> (c: Self)
        ensures
            c.wf(),
            c.window_map() == Map::<usize, T>::empty(),
            c.spec_index_counter() is None,
            c.spec_indices_to_destroy() == Set::<usize>::empty(),
    {
        WindowContainer {
            windows: BTreeMap::new(),
            free_indices: FreeIndices::new(),
            index_counter: None,
            indices_to_destroy: BTreeSet::new(),
        }
    }

    /// Adds a window to the window container and sets its window index.
    ///
    /// The window gets the least window index that no window has; `None` is returned when the
    /// window indices are exhausted.
    pub fn add_dyn(&mut self, window: T) -> (r: Option<WindowIndex>)
        requires
            old(self).wf(),
        ensures
            add_outcome(*old(self), *final(self), window, r),
    {
        let mut window = window;
        let ghost old_used = self.windows@.dom();
        let first = self.free_indices.take_first();
        match first {
            Some(i) => {
                proof {
                    let c = self.index_counter.unwrap();
                    assert forall|j: usize| j < i implies old_used.contains(j) by {
                        assert(!old(self).free_indices.has(j as int));
                    }
                    assert(!old_used.contains(i));
                    assert forall|k: usize| (old_used.insert(i).contains(k) || self.free_indices.has(k as int)) <==> k <= c by {
                        assert(old(self).free_indices.has(i as int));
                    }
                }
                let new_idx = WindowIndex(i);
                window.set_index(SelfWindowIndex::new(new_idx));
                self.windows.insert(i, window);
                Some(new_idx)
            },
            None => {
                match self.index_counter {
                    Some(idx_counter) => {
                        if idx_counter < usize::MAX {
                            let i = idx_counter + 1;
                            proof {
                                assert forall|j: usize| j < i implies old_used.contains(j) by {
                                    assert(!self.free_indices.has(j as int));
                                }
                                assert(!old_used.contains(i));
                            }
                            let new_idx = WindowIndex(i);
                            window.set_index(SelfWindowIndex::new(new_idx));
                            self.windows.insert(i, window);
                            self.index_counter = Some(i);
                            Some(new_idx)
                        } else {
                            proof {
                                assert forall|k: usize| old_used.contains(k) by {
                                    assert(!self.free_indices.has(k as int));
                                }
                            }
                            None
                        }
                    },
                    None => {
                        let new_idx = WindowIndex(0);
                        window.set_index(SelfWindowIndex::new(new_idx));
                        self.windows.insert(0, window);
                        self.index_counter = Some(0);
                        proof {
                            assert(self.windows@.dom() =~= set![0usize]);
                        }
                        Some(new_idx)
                    },
                }
            },
        }
    }

    /// Adds a window to the window container; the same as `add_dyn`.
    pub fn add(&mut self, window: T) -> (r: Option<WindowIndex>)
        requires
            old(self).wf(),
        ensures
            add_outcome(*old(self), *final(self), window, r),
    {
        self.add_dyn(window)
    }

    /// Frees the index of a removed window.
    fn free_index(&mut self, idx: usize)
        requires
            indices_wf(old(self).windows@.dom().insert(idx), old(self).free_indices, old(self).index_counter),
            !old(self).windows@.dom().contains(idx),
        ensures
            final(self).wf(),
            final(self).windows == old(self).windows,
            final(self).indices_to_destroy == old(self).indices_to_destroy,
    {
        let ghost used = self.windows@.dom();
        proof {
            assert(used.insert(idx).contains(idx));
        }
        let c = self.index_counter.unwrap();
        if c != idx {
            proof {
                assert(!self.free_indices.has(idx as int));
            }
            self.free_indices.insert(idx);
            proof {
                assert(used.insert(idx).contains(c));
                assert(used.contains(c));
                assert forall|k: usize|
                    #![trigger used.contains(k)]
                    #![trigger self.free_indices.has(k as int)]
                    ((used.contains(k) || self.free_indices.has(k as int)) <==> k <= c)
                    && !(used.contains(k) && self.free_indices.has(k as int)) by {
                    lemma_wf_at(used.insert(idx), old(self).free_indices, c, k);
                    assert(used.insert(idx).contains(k) <==> (used.contains(k) || k == idx));
                    assert(self.free_indices.has(k as int) <==> (old(self).free_indices.has(k as int) || k == idx));
                }
            }
        } else {
            if idx > 0 {
                let range = self.free_indices.remove_range_with(idx - 1);
                match range {
                    Some(range) => {
                        let ghost freed = self.free_indices;
                        if range.min > 0 {
                            self.index_counter = Some(range.min - 1);
                            proof {
                                let m = (range.min - 1) as usize;
                                assert(!old(self).free_indices.has(m as int));
                                assert(used.insert(idx).contains(m));
                                assert(!old(self).free_indices.has(idx as int)) by {
                                    assert(used.insert(idx).contains(idx));
                                }
                                assert(range.max < idx) by {
                                    if range.max >= idx {
                                        assert(in_range(range, idx as int));
                                    }
                                }
                                assert forall|k: usize|
                                    #![trigger used.contains(k)]
                                    #![trigger self.free_indices.has(k as int)]
                                    ((used.contains(k) || self.free_indices.has(k as int)) <==> k <= m)
                                    && !(used.contains(k) && self.free_indices.has(k as int)) by {
                                    assert(used.insert(idx).contains(k) <==> (used.contains(k) || k == idx));
                                    assert((used.insert(idx).contains(k) || old(self).free_indices.has(k as int)) <==> k <= c);
                                    assert(!(used.insert(idx).contains(k) && old(self).free_indices.has(k as int)));
                                    assert(freed.has(k as int) <==> (old(self).free_indices.has(k as int) && !in_range(range, k as int)));
                                    if m < k && k < idx {
                                        assert(in_range(range, k as int));
                                        assert(old(self).free_indices.has(k as int));
                                    }
                                }
                            }
                        } else {
                            self.index_counter = None;
                            proof {
                                assert forall|k: usize| !used.contains(k) by {
                                    assert(used.insert(idx).contains(k) <==> (used.contains(k) || k == idx));
                                    assert((used.insert(idx).contains(k) || old(self).free_indices.has(k as int)) <==> k <= c);
                                    assert(!(used.insert(idx).contains(k) && old(self).free_indices.has(k as int)));
                                    if k < idx {
                                        assert(in_range(range, k as int));
                                    }
                                }
                                assert(used =~= Set::<usize>::empty());
                                assert forall|k: int| !self.free_indices.has(k) by {
                                    if self.free_indices.has(k) {
                                        assert(0 <= k <= usize::MAX);
                                        let ku = k as usize;
                                        if ku <= c {
                                            assert(!in_range(range, k));
                                        }
                                    }
                                }
                            }
                        }
                    },
                    None => {
                        self.index_counter = Some(idx - 1);
                        proof {
                            let m = (idx - 1) as usize;
                            let u = used.insert(idx);
                            lemma_wf_at(u, old(self).free_indices, c, m);
                            assert(u.contains(m) <==> (used.contains(m) || m == idx));
                            assert forall|k: usize|
                                #![trigger used.contains(k)]
                                #![trigger self.free_indices.has(k as int)]
                                (used.contains(k) || self.free_indices.has(k as int)) <==> k <= m
                                && !(used.contains(k) && self.free_indices.has(k as int)) by {
                                lemma_wf_at(u, old(self).free_indices, c, k);
                                lemma_wf_at(u, old(self).free_indices, c, idx);
                                assert(u.contains(k) <==> (used.contains(k) || k == idx));
                                assert(u.contains(idx));
                            }
                        }
                    },
                }
            } else {
                self.index_counter = None;
                proof {
                    assert forall|k: usize| !used.contains(k) by {
                        assert(used.insert(idx).contains(k) <==> (used.contains(k) || k == idx));
                        assert((used.insert(idx).contains(k) || old(self).free_indices.has(k as int)) <==> k <= c);
                    }
                    assert(used =~= Set::<usize>::empty());
                    assert forall|k: int| !self.free_indices.has(k) by {
                        if self.free_indices.has(k) {
                            assert(0 <= k <= usize::MAX);
                            let ku = k as usize;
                            assert(ku <= c);
                            assert(used.insert(idx).contains(0));
                        }
                    }
                }
            }
        }
    }

    /// Removes the window that has the window index and returns it.
    ///
    /// The window index of the removed window is freed, and is marked for destruction. The
    /// window index is unset for the removed window; the removed window is removed from its
    /// parent and the parents of its children are unset.
    pub fn remove(&mut self, idx: WindowIndex) -> (r: Option<T>)
        requires
            old(self).wf(),
        ensures
            remove_outcome(*old(self), *final(self), idx, r),
    {
        match self.windows.remove(&idx.0) {
            Some(window) => {
                let mut window = window;
                let ghost ow = window;
                let ghost pidx = parent_of(old(self).windows@, idx.0);
                proof {
                    assert(self.windows@.dom().insert(idx.0) =~= old(self).windows@.dom());
                }
                self.free_index(idx.0);
                window.unset_index(SelfWindowTag::new());
                match window.parent_index() {
                    Some(parent_idx) => {
                        window.unset_parent(ParentWindowTag::new());
                        match btree_map_get_mut(&mut self.windows, parent_idx.0) {
                            Some(parent) => {
                                parent.remove_child(ChildWindowIndex::new(idx));
                            },
                            None => {},
                        }
                        proof {
                            assert(self.windows@.dom() =~= old(self).windows@.dom().remove(idx.0));
                        }
                    },
                    None => {},
                }
                let ghost m0 = self.windows@;
                let ghost wparent = window.spec_parent_index();
                let ghost w1 = window;
                proof {
                    assert(w1 == parent_unset_window(ow.spec_unindexed()));
                }
                proof {
                    assert forall|k: usize| #[trigger] m0.dom().contains(k) implies {
                        &&& m0[k].spec_parent_index() == old(self).windows@[k].spec_parent_index()
                        &&& m0[k].spec_child_indices() == old(self).windows@[k].spec_child_indices()
                            || (pidx == Some(k) && m0[k].spec_child_indices()
                                == old(self).windows@[k].spec_child_indices().remove(idx.0))
                        &&& pidx != Some(k) ==> m0[k] == old(self).windows@[k]
                    } by {
                        assert(old(self).windows@.dom().contains(k));
                    }
                }
                let child_indices = window.child_indices();
                let ghost used = self.windows@.dom();
                let mut i: usize = 0;
                while i < child_indices.len()
                    invariant
                        i <= child_indices@.len(),
                        self.windows@.dom() == used,
                        m0.dom() == used,
                        indices_wf(used, self.free_indices, self.index_counter),
                        self.indices_to_destroy == old(self).indices_to_destroy,
                        forall|j: int| 0 <= j < child_indices@.len() ==> ow.spec_child_indices().contains(#[trigger] child_indices@[j].0),
                        window.spec_parent_index() == wparent,
                        window.spec_child_indices().subset_of(ow.spec_child_indices()),
                        forall|k: usize| #[trigger] used.contains(k) ==> {
                            &&& self.windows@[k].spec_child_indices() == m0[k].spec_child_indices()
                            &&& self.windows@[k].spec_parent_index() == m0[k].spec_parent_index()
                                || (self.windows@[k].spec_parent_index() is None && ow.spec_child_indices().contains(k))
                            &&& !ow.spec_child_indices().contains(k) ==> self.windows@[k] == m0[k]
                            &&& pidx != Some(k) ==> self.windows@[k] == (if exists|j: int| 0 <= j < i && child_indices@[j].0 == k {
                                parent_unset_window(m0[k])
                            } else {
                                m0[k]
                            })
                        },
                        forall|a: int, b: int| 0 <= a < b < child_indices@.len() ==> child_indices@[a].0 != child_indices@[b].0,
                        forall|k: usize| #[trigger] ow.spec_child_indices().contains(k) ==> exists|j: int| 0 <= j < child_indices@.len() && child_indices@[j].0 == k,
                        i == 0 ==> window == w1,
                        window.spec_index() is None,
                        window.spec_child_indices() == w1.spec_child_indices().filter(
                            |k: usize| !(removed_before(child_indices@, i as int, k) && w1.spec_accepts_child_removal(WindowIndex(k)))),
                        forall|j: WindowIndex| !removed_before(child_indices@, i as int, j.0)
                            ==> #[trigger] window.spec_accepts_child_removal(j) == w1.spec_accepts_child_removal(j),
                    decreases child_indices@.len() - i,
                {
                    let child_idx = child_indices[i];
                    let ghost before = self.windows@;
                    match btree_map_get_mut(&mut self.windows, child_idx.0) {
                        Some(child) => {
                            child.unset_parent(ParentWindowTag::new());
                        },
                        None => {},
                    }
                    proof {
                        assert(self.windows@.dom() =~= used);
                        assert(ow.spec_child_indices().contains(child_indices@[i as int].0));
                        assert forall|k: usize| #[trigger] used.contains(k) implies {
                            &&& self.windows@[k].spec_child_indices() == m0[k].spec_child_indices()
                            &&& self.windows@[k].spec_parent_index() == m0[k].spec_parent_index()
                                || (self.windows@[k].spec_parent_index() is None && ow.spec_child_indices().contains(k))
                            &&& !ow.spec_child_indices().contains(k) ==> self.windows@[k] == m0[k]
                            &&& pidx != Some(k) ==> self.windows@[k] == (if exists|j: int| 0 <= j < i + 1 && child_indices@[j].0 == k {
                                parent_unset_window(m0[k])
                            } else {
                                m0[k]
                            })
                        } by {
                            assert(before.dom().contains(k));
                            if k == child_idx.0 {
                                assert(!exists|j: int| 0 <= j < i && child_indices@[j].0 == k);
                                assert(child_indices@[i as int].0 == k);
                            } else {
                                assert((exists|j: int| 0 <= j < i + 1 && child_indices@[j].0 == k)
                                    == (exists|j: int| 0 <= j < i && child_indices@[j].0 == k));
                            }
                        }
                    }
                    let ghost win0 = window;
                    let ghost k = child_idx.0;
                    proof {
                        assert(!removed_before(child_indices@, i as int, k)) by {
                            if removed_before(child_indices@, i as int, k) {
                                let jj = choose|jj: int| 0 <= jj < i && child_indices@[jj].0 == k;
                                assert(child_indices@[jj].0 != child_indices@[i as int].0);
                            }
                        }
                        assert(win0.spec_accepts_child_removal(WindowIndex(k)) == w1.spec_accepts_child_removal(WindowIndex(k)));
                    }
                    window.remove_child(ChildWindowIndex::new(child_idx));
                    proof {
                        assert forall|kk: usize| removed_before(child_indices@, i + 1, kk)
                            == (removed_before(child_indices@, i as int, kk) || kk == k) by {
                            if kk == k {
                                assert(child_indices@[i as int].0 == kk);
                            }
                            if removed_before(child_indices@, i + 1, kk) && !removed_before(child_indices@, i as int, kk) {
                                let jj = choose|jj: int| 0 <= jj < i + 1 && child_indices@[jj].0 == kk;
                                assert(jj == i);
                            }
                        }
                        assert(window.spec_child_indices() =~= w1.spec_child_indices().filter(
                            |kk: usize| !(removed_before(child_indices@, i + 1, kk) && w1.spec_accepts_child_removal(WindowIndex(kk)))));
                        assert forall|j: WindowIndex| !removed_before(child_indices@, i + 1, j.0)
                            implies #[trigger] window.spec_accepts_child_removal(j) == w1.spec_accepts_child_removal(j) by {
                            assert(j.0 != k);
                            assert(!removed_before(child_indices@, i as int, j.0));
                        }
                    }
                    i = i + 1;
                }
                proof {
                    assert forall|k: usize| #[trigger] used.contains(k) && pidx != Some(k) implies self.windows@[k] == (
                        if ow.spec_child_indices().contains(k) {
                            parent_unset_window(old(self).windows@[k])
                        } else {
                            old(self).windows@[k]
                        }) by {
                        assert(m0.dom().contains(k));
                        if ow.spec_child_indices().contains(k) {
                            let j = choose|j: int| 0 <= j < child_indices@.len() && child_indices@[j].0 == k;
                            assert(exists|j: int| 0 <= j < i && child_indices@[j].0 == k);
                        } else {
                            if exists|j: int| 0 <= j < i && child_indices@[j].0 == k {
                                let j = choose|j: int| 0 <= j < i && child_indices@[j].0 == k;
                                assert(ow.spec_child_indices().contains(child_indices@[j].0));
                            }
                        }
                    }
                    assert(window.spec_child_indices() =~= w1.spec_child_indices().filter(|k: usize| !w1.spec_accepts_child_removal(WindowIndex(k)))) by {
                        assert forall|k: usize| w1.spec_child_indices().contains(k) implies removed_before(child_indices@, i as int, k) by {
                            let j = choose|j: int| 0 <= j < child_indices@.len() && child_indices@[j].0 == k;
                        }
                    }
                    if w1.spec_child_indices() =~= Set::<usize>::empty() {
                        if child_indices@.len() > 0 {
                            assert(ow.spec_child_indices().contains(child_indices@[0].0));
                        }
                    }
                }
                self.indices_to_destroy.insert(idx.0);
                Some(window)
            },
            None => {
                proof {
                    assert(self.windows@ =~= old(self).windows@);
                }
                None
            },
        }
    }

    /// Returns the index counter: the greatest used window index, or `None` for no windows.
    pub fn index_counter(&self) -> (r: Option<usize>)
        requires
            self.wf(),
        ensures
            r == self.spec_index_counter(),
            match r {
                Some(c) => self.used_indices().contains(c) && forall|k: usize| self.used_indices().contains(k) ==> k <= c,
                None => self.used_indices() == Set::<usize>::empty(),
            },
    {
        self.index_counter
    }

    /// Returns the free window indices below the index counter.
    pub fn free_indices(&self) -> (r: &FreeIndices)
        requires
            self.wf(),
        ensures
            *r == self.spec_free_indices(),
            forall|k: usize| r.has(k as int) ==> !self.used_indices().contains(k),
    {
        &self.free_indices
    }

    /// Returns the indices of the removed windows that are to be destroyed.
    pub fn indices_to_destroy(&self) -> (r: &BTreeSet<usize>)
        ensures
            r@ == self.spec_indices_to_destroy(),
    {
        &self.indices_to_destroy
    }

    /// Forgets the indices of the removed windows that are to be destroyed.
    pub fn clear_indices_to_destroy(&mut self)
        requires
            old(self).wf(),
        ensures
            final(self).wf(),
            final(self).window_map() == old(self).window_map(),
            final(self).spec_indices_to_destroy() == Set::<usize>::empty(),
    {
        self.indices_to_destroy.clear();
    }

    /// Returns the number of windows.
    pub fn len(&self) -> (n: usize)
        ensures
            n == self.window_map().len(),
    {
        self.windows.len()
    }

    /// Returns a reference to the window for the window index or `None`.
    pub fn dyn_window(&self, idx: WindowIndex) -> (r: Option<&T>)
        ensures
            match r {
                Some(w) => self.used_indices().contains(idx.0) && *w == self.window_map()[idx.0],
                None => !self.used_indices().contains(idx.0),
            },
    {
        self.windows.get(&idx.0)
    }


    /// Returns a reference to the window for the window index or `None`; the same as
    /// `dyn_window`.
    pub fn window(&self, idx: WindowIndex) -> (r: Option<&T>)
        ensures
            match r {
                Some(w) => self.used_indices().contains(idx.0) && *w == self.window_map()[idx.0],
                None => !self.used_indices().contains(idx.0),
            },
    {
        self.dyn_window(idx)
    }

    /// Returns a mutable reference to the window for the window index or `None`; the same as
    /// `dyn_window_mut`.
    pub fn window_mut(&mut self, idx: WindowIndex) -> (r: Option<&mut T>)
        requires
            old(self).wf(),
        ensures
            match r {
                Some(w) => {
                    &&& old(self).used_indices().contains(idx.0)
                    &&& *w == old(self).window_map()[idx.0]
                    &&& final(self).window_map() == old(self).window_map().insert(idx.0, *final(w))
                },
                None => {
                    &&& !old(self).used_indices().contains(idx.0)
                    &&& final(self).window_map() == old(self).window_map()
                },
            },
            final(self).wf(),
            final(self).spec_indices_to_destroy() == old(self).spec_indices_to_destroy(),
    {
        self.dyn_window_mut(idx)
    }

    /// Returns the window indices in increasing order.
    pub fn window_indices(&self) -> (v: Vec<WindowIndex>)
        requires
            self.wf(),
        ensures
            forall|i: int, j: int| 0 <= i < j < v@.len() ==> v@[i].0 < v@[j].0,
            forall|i: int| 0 <= i < v@.len() ==> self.used_indices().contains(#[trigger] v@[i].0),
            forall|k: usize| self.used_indices().contains(k) ==> exists|i: int| 0 <= i < v@.len() && #[trigger] v@[i].0 == k,
    {
        let mut v: Vec<WindowIndex> = Vec::new();
        match self.index_counter {
            Some(c) => {
                let mut k: usize = 0;
                loop
                    invariant_except_break
                        k <= c,
                        forall|i: int| 0 <= i < v@.len() ==> #[trigger] v@[i].0 < k,
                        forall|m: usize| m < k && self.windows@.dom().contains(m) ==> exists|i: int| 0 <= i < v@.len() && #[trigger] v@[i].0 == m,
                    invariant
                        self.wf(),
                        self.index_counter == Some(c),
                        forall|i: int, j: int| 0 <= i < j < v@.len() ==> v@[i].0 < v@[j].0,
                        forall|i: int| 0 <= i < v@.len() ==> self.windows@.dom().contains(#[trigger] v@[i].0),
                    ensures
                        forall|m: usize| m <= c && self.windows@.dom().contains(m) ==> exists|i: int| 0 <= i < v@.len() && #[trigger] v@[i].0 == m,
                    decreases c - k,
                {
                    let ghost old_v = v@;
                    if self.windows.contains_key(&k) {
                        v.push(WindowIndex(k));
                    }
                    proof {
                        assert forall|m: usize| m <= k && self.windows@.dom().contains(m) implies exists|i: int| 0 <= i < v@.len() && #[trigger] v@[i].0 == m by {
                            if m < k {
                                let i = choose|i: int| 0 <= i < old_v.len() && #[trigger] old_v[i].0 == m;
                                assert(v@[i].0 == m);
                            } else {
                                assert(v@[v@.len() - 1].0 == m);
                            }
                        }
                    }
                    if k == c {
                        break;
                    }
                    k = k + 1;
                }
            },
            None => {},
        }
        v
    }


    /// Returns the windows in the increasing order of their window indices.
    pub fn dyn_windows(&self) -> (r: Vec<&T>)
        requires
            self.wf(),
        ensures
            exists|ks: Seq<usize>| #[trigger] indices_in_order(self.used_indices(), ks) && {
                &&& ks.len() == r@.len()
                &&& forall|i: int| 0 <= i < ks.len() ==> *r@[i] == self.window_map()[#[trigger] ks[i]]
            },
    {
        let idxs = self.window_indices();
        let mut r: Vec<&T> = Vec::new();
        let mut i: usize = 0;
        while i < idxs.len()
            invariant
                i <= idxs@.len(),
                r@.len() == i,
                forall|j: int| 0 <= j < idxs@.len() ==> self.used_indices().contains(#[trigger] idxs@[j].0),
                forall|j: int| 0 <= j < i ==> *r@[j] == self.window_map()[#[trigger] idxs@[j].0],
            decreases idxs@.len() - i,
        {
            let k = idxs[i].0;
            match self.windows.get(&k) {
                Some(w) => {
                    r.push(w);
                },
                None => {
                    proof {
                        assert(self.used_indices().contains(idxs@[i as int].0));
                    }
                    return r;
                },
            }
            i = i + 1;
        }
        proof {
            let ks = Seq::new(idxs@.len(), |j: int| idxs@[j].0);
            assert forall|k: usize| self.used_indices().contains(k) implies ks.contains(k) by {
                let j = choose|j: int| 0 <= j < idxs@.len() && #[trigger] idxs@[j].0 == k;
                assert(ks[j] == k);
            }
            assert(indices_in_order(self.used_indices(), ks));
            assert(forall|a: int| 0 <= a < ks.len() ==> *r@[a] == self.window_map()[#[trigger] ks[a]]);
        }
        r
    }

    /// Unsets the parent for the child and removes the child from the parent.
    ///
    /// Returns `Some(())` if the child had a parent and both windows took the change.
    pub fn unset_parent(&mut self, child_idx: WindowIndex) -> (r: Option<()>)
        requires
            old(self).wf(),
        ensures
            unset_parent_outcome(*old(self), *final(self), child_idx, r),
    {
        let parent_idx = match self.dyn_window_mut(child_idx) {
            Some(child_window) => {
                match child_window.parent_index() {
                    Some(parent_idx) => {
                        match child_window.unset_parent(ParentWindowTag::new()) {
                            Some(()) => Some(parent_idx),
                            None => {
                                proof {
                                    assert(self.windows@.dom() =~= old(self).windows@.dom());
                                }
                                return None;
                            },
                        }
                    },
                    None => None,
                }
            },
            None => None,
        };
        proof {
            assert(self.windows@.dom() =~= old(self).windows@.dom());
        }
        match parent_idx {
            Some(parent_idx) => {
                match self.dyn_window_mut(parent_idx) {
                    Some(parent_window) => {
                        let res = parent_window.remove_child(ChildWindowIndex::new(child_idx));
                        proof {
                            assert(self.windows@.dom() =~= old(self).windows@.dom());
                        }
                        res
                    },
                    None => None,
                }
            },
            None => {
                proof {
                    if old(self).used_indices().contains(child_idx.0) {
                        assert(self.windows@ =~= old(self).windows@.insert(child_idx.0, self.windows@[child_idx.0]));
                    }
                }
                None
            },
        }
    }

    /// Sets a parent for a child and adds the child to the parent.
    ///
    /// The former parent of the child is unset first. Returns `Some(())` if both windows took
    /// the change; when the parent refuses the child, the parent of the child is unset again.
    pub fn set_parent(&mut self, child_idx: WindowIndex, parent_idx: WindowIndex, pos: Pos<i32>) -> (r: Option<()>)
        requires
            old(self).wf(),
        ensures
            set_parent_outcome(*old(self), *final(self), child_idx, parent_idx, pos, r),
    {
        self.unset_parent(child_idx);
        match self.dyn_window_mut(child_idx) {
            Some(child_window) => {
                match child_window.set_parent(ParentWindowIndex::new(parent_idx), pos) {
                    Some(()) => {},
                    None => {
                        proof {
                            assert(self.windows@.dom() =~= old(self).windows@.dom());
                        }
                        return None;
                    },
                }
            },
            None => return None,
        }
        proof {
            assert(self.windows@.dom() =~= old(self).windows@.dom());
        }
        let is_success = match self.dyn_window_mut(parent_idx) {
            Some(parent_window) => parent_window.add_child(ChildWindowIndex::new(child_idx)).is_some(),
            None => false,
        };
        proof {
            assert(self.windows@.dom() =~= old(self).windows@.dom());
        }
        proof {
            if is_success {
                assert(old(self).windows@[parent_idx.0].spec_child_indices().remove(child_idx.0).insert(child_idx.0)
                    =~= old(self).windows@[parent_idx.0].spec_child_indices().insert(child_idx.0));
            }
        }
        if !is_success {
            match self.dyn_window_mut(child_idx) {
                Some(child_window) => {
                    child_window.unset_parent(ParentWindowTag::new());
                },
                None => {},
            }
            proof {
                assert(self.windows@.dom() =~= old(self).windows@.dom());
            }
            return None;
        }
        Some(())
    }

    /// Returns the widget for the absolute widget path or `None`.
    pub fn dyn_widget(&self, path: &AbsWidgetPath) -> (r: Option<&T::W>)
        ensures
            match r {
                Some(w) => {
                    &&& self.used_indices().contains(path.window_index.0)
                    &&& window_widget(self.window_map()[path.window_index.0], path.rel_widget_path@) == Some(*w)
                },
                None => !self.used_indices().contains(path.window_index.0)
                    || window_widget(self.window_map()[path.window_index.0], path.rel_widget_path@) is None,
            },
    {
        match self.dyn_window(path.window_index()) {
            Some(window) => window_dyn_widget(window, path.as_rel_widget_path()),
            None => None,
        }
    }

    /// Returns the mutable widget for the absolute widget path or `None`.
    pub fn dyn_widget_mut(&mut self, path: &AbsWidgetPath) -> (r: Option<&mut T::W>)
        requires
            old(self).wf(),
        ensures
            match r {
                Some(w) => {
                    &&& old(self).used_indices().contains(path.window_index.0)
                    &&& window_widget(old(self).window_map()[path.window_index.0], path.rel_widget_path@) == Some(*w)
                    &&& window_widget(final(self).window_map()[path.window_index.0], path.rel_widget_path@) == Some(*final(w))
                },
                None => {
                    &&& !old(self).used_indices().contains(path.window_index.0)
                        || window_widget(old(self).window_map()[path.window_index.0], path.rel_widget_path@) is None
                    &&& final(self).window_map() == old(self).window_map()
                },
            },
            r is Some ==> widget_changed_at(*old(self), *final(self), path.window_index.0, path.rel_widget_path@),
            final(self).used_indices() == old(self).used_indices(),
            final(self).spec_indices_to_destroy() == old(self).spec_indices_to_destroy(),
            final(self).wf(),
    {
        match self.dyn_window_mut(path.window_index()) {
            Some(window) => {
                let ghost w0 = *window;
                let ghost w1 = *final(window);
                let r = window_dyn_widget_mut(window, path.as_rel_widget_path());
                proof {
                    if r is Some {
                        assert forall|t: Seq<WidgetIndexPair>| #[trigger] window_widget(w1, path.rel_widget_path@ + t)
                            == match window_widget(w1, path.rel_widget_path@) {
                                Some(x) => widget_descend(x, t),
                                None => None,
                            } by {
                            lemma_window_widget_join(w1, path.rel_widget_path@, t);
                        }
                    }
                }
                r
            },
            None => None,
        }
    }

    /// Returns the widget for the absolute widget path or `None`; the same as `dyn_widget`.
    pub fn widget(&self, path: &AbsWidgetPath) -> (r: Option<&T::W>)
        ensures
            match r {
                Some(w) => {
                    &&& self.used_indices().contains(path.window_index.0)
                    &&& window_widget(self.window_map()[path.window_index.0], path.rel_widget_path@) == Some(*w)
                },
                None => !self.used_indices().contains(path.window_index.0)
                    || window_widget(self.window_map()[path.window_index.0], path.rel_widget_path@) is None,
            },
    {
        self.dyn_widget(path)
    }

    /// Returns the mutable widget for the absolute widget path or `None`; the same as
    /// `dyn_widget_mut`.
    pub fn widget_mut(&mut self, path: &AbsWidgetPath) -> (r: Option<&mut T::W>)
        requires
            old(self).wf(),
        ensures
            match r {
                Some(w) => {
                    &&& old(self).used_indices().contains(path.window_index.0)
                    &&& window_widget(old(self).window_map()[path.window_index.0], path.rel_widget_path@) == Some(*w)
                    &&& window_widget(final(self).window_map()[path.window_index.0], path.rel_widget_path@) == Some(*final(w))
                },
                None => !old(self).used_indices().contains(path.window_index.0)
                    || window_widget(old(self).window_map()[path.window_index.0], path.rel_widget_path@) is None,
            },
            final(self).used_indices() == old(self).used_indices(),
            final(self).spec_indices_to_destroy() == old(self).spec_indices_to_destroy(),
            final(self).wf(),
    {
        self.dyn_widget_mut(path)
    }

    /// Calls the closure on the window, which can set its content widget, and returns the
    /// absolute widget path of the window index and the widget index pair that the closure
    /// returns.
    pub fn abs_widget_path1<F>(&mut self, idx: WindowIndex, f: F) -> (r: Option<AbsWidgetPath>)
        where F: FnOnce(&mut T) -> Option<WidgetIndexPair>,
        requires
            old(self).wf(),
            forall|w: &mut T| #[trigger] call_requires(f, (w,)),
        ensures
            final(self).wf(),
            final(self).used_indices() == old(self).used_indices(),
            final(self).spec_indices_to_destroy() == old(self).spec_indices_to_destroy(),
            !old(self).used_indices().contains(idx.0) ==> r is None,
            match r {
                Some(p) => p.window_index == idx && p.rel_widget_path@.len() == 1,
                None => true,
            },
            old(self).used_indices().contains(idx.0) ==> exists|w: &mut T, res: Option<WidgetIndexPair>| {
                &&& *w == old(self).window_map()[idx.0]
                &&& #[trigger] call_ensures(f, (w,), res)
                &&& final(self).window_map() == old(self).window_map().insert(idx.0, *final(w))
                &&& match res {
                    Some(pair) => r matches Some(p) && p.rel_widget_path@ == seq![pair],
                    None => r is None,
                }
            },
    {
        let res = match self.dyn_window_mut(idx) {
            Some(window) => {
                let ghost w0 = *window;
                let res_pair = f(window);
                proof {
                    assert(w0 == old(self).window_map()[idx.0]);
                }
                match res_pair {
                    Some(idx_pair) => Some(AbsWidgetPath::new(idx, idx_pair)),
                    None => None,
                }
            },
            None => None,
        };
        proof {
            assert(self.windows@.dom() =~= old(self).windows@.dom());
        }
        res
    }

    /// Calls the closure on the widget for the absolute widget path, which can add a widget to
    /// it, and returns the path extended with the widget index pair that the closure returns.
    pub fn abs_widget_path<F>(&mut self, path: &AbsWidgetPath, f: F) -> (r: Option<AbsWidgetPath>)
        where F: FnOnce(&mut T::W) -> Option<WidgetIndexPair>,
        requires
            old(self).wf(),
            forall|w: &mut T::W| #[trigger] call_requires(f, (w,)),
        ensures
            final(self).wf(),
            final(self).used_indices() == old(self).used_indices(),
            final(self).spec_indices_to_destroy() == old(self).spec_indices_to_destroy(),
            (!old(self).used_indices().contains(path.window_index.0)
                || window_widget(old(self).window_map()[path.window_index.0], path.rel_widget_path@) is None) ==> r is None,
            match r {
                Some(p) => {
                    &&& p.window_index == path.window_index
                    &&& p.rel_widget_path@.len() == path.rel_widget_path@.len() + 1
                    &&& p.rel_widget_path@.drop_last() == path.rel_widget_path@
                },
                None => true,
            },
            (old(self).used_indices().contains(path.window_index.0)
                && window_widget(old(self).window_map()[path.window_index.0], path.rel_widget_path@) is Some)
                ==> exists|w: &mut T::W, res: Option<WidgetIndexPair>| {
                &&& Some(*w) == window_widget(old(self).window_map()[path.window_index.0], path.rel_widget_path@)
                &&& #[trigger] call_ensures(f, (w,), res)
                &&& window_widget(final(self).window_map()[path.window_index.0], path.rel_widget_path@) == Some(*final(w))
                &&& widget_changed_at(*old(self), *final(self), path.window_index.0, path.rel_widget_path@)
                &&& match res {
                    Some(pair) => r matches Some(p) && p.rel_widget_path@ == path.rel_widget_path@.push(pair),
                    None => r is None,
                }
            },
    {
        let res = match self.dyn_widget_mut(path) {
            Some(widget) => {
                match f(widget) {
                    Some(idx_pair) => {
                        let mut new_path = path.clone_path();
                        new_path.push(idx_pair);
                        proof {
                            assert(new_path.rel_widget_path@.drop_last() =~= path.rel_widget_path@);
                        }
                        Some(new_path)
                    },
                    None => None,
                }
            },
            None => None,
        };
        res
    }

    /// Returns a mutable reference to the window for the window index or `None`.
    pub fn dyn_window_mut(&mut self, idx: WindowIndex) -> (r: Option<&mut T>)
        requires
            old(self).wf(),
        ensures
            match r {
                Some(w) => {
                    &&& old(self).used_indices().contains(idx.0)
                    &&& *w == old(self).window_map()[idx.0]
                    &&& final(self).window_map() == old(self).window_map().insert(idx.0, *final(w))
                },
                None => {
                    &&& !old(self).used_indices().contains(idx.0)
                    &&& final(self).window_map() == old(self).window_map()
                },
            },
            final(self).used_indices() == old(self).used_indices(),
            final(self).wf(),
            final(self).spec_indices_to_destroy() == old(self).spec_indices_to_destroy(),
    {
        btree_map_get_mut(&mut self.windows, idx.0)
    }
}

/// The window indices are determined by the used indices: two window containers with the same
/// used indices have the same index counter and the same free indices.
pub proof fn lemma_indices_determined_by_used<T: Window>(c1: WindowContainer<T>, c2: WindowContainer<T>)
    requires
        c1.wf(),
        c2.wf(),
        c1.used_indices() == c2.used_indices(),
    ensures
        c1.spec_index_counter() == c2.spec_index_counter(),
        forall|k: int| c1.spec_free_indices().has(k) <==> c2.spec_free_indices().has(k),
{
    indices_determined_by_used(c1.used_indices(), c1.free_indices, c1.index_counter, c2.free_indices, c2.index_counter);
}

/// Removing the window that was just added gives back the window indices from before: the same
/// used indices, index counter and free indices.
pub proof fn lemma_remove_undoes_add<T: Window>(
    c0: WindowContainer<T>,
    c1: WindowContainer<T>,
    c2: WindowContainer<T>,
    window: T,
    idx: WindowIndex,
    removed: T,
)
    requires
        c0.wf(),
        add_outcome(c0, c1, window, Some(idx)),
        remove_outcome(c1, c2, idx, Some(removed)),
    ensures
        c2.used_indices() == c0.used_indices(),
        c2.spec_index_counter() == c0.spec_index_counter(),
        forall|k: int| c2.spec_free_indices().has(k) <==> c0.spec_free_indices().has(k),
{
    assert(c0.used_indices().insert(idx.0).remove(idx.0) =~= c0.used_indices());
    lemma_indices_determined_by_used(c2, c0);
}

/// A new window gets the least index that no window has, so that two additions to one window
/// container give the same index.
pub proof fn lemma_add_gives_least_unused<T: Window>(
    c0: WindowContainer<T>,
    c1: WindowContainer<T>,
    c2: WindowContainer<T>,
    window1: T,
    window2: T,
    idx1: WindowIndex,
    idx2: WindowIndex,
)
    requires
        c0.wf(),
        add_outcome(c0, c1, window1, Some(idx1)),
        add_outcome(c0, c2, window2, Some(idx2)),
    ensures
        idx1 == idx2,
        forall|k: usize| k < idx1.0 ==> c0.used_indices().contains(k),
{
    least_unused_unique(c0.used_indices(), idx1.0, idx2.0);
}

/// After a window is removed, the next window gets the removed index unless a lower index is
/// free, in which case it gets the lowest free index.
pub proof fn lemma_add_after_remove<T: Window>(
    c0: WindowContainer<T>,
    c1: WindowContainer<T>,
    c2: WindowContainer<T>,
    idx: WindowIndex,
    removed: T,
    window: T,
    new_idx: WindowIndex,
    least: usize,
)
    requires
        c0.wf(),
        least_unused(c0.used_indices(), least),
        remove_outcome(c0, c1, idx, Some(removed)),
        add_outcome(c1, c2, window, Some(new_idx)),
    ensures
        new_idx.0 == (if idx.0 < least { idx.0 } else { least }),
{
    least_unused_after_remove(c0.used_indices(), idx.0, least, new_idx.0);
}

/// Unsetting the parent undoes setting it: after both succeed, the child has no parent and the
/// parent has the children that it had, without the child.
pub proof fn lemma_unset_parent_undoes_set_parent<T: Window>(
    c0: WindowContainer<T>,
    c1: WindowContainer<T>,
    c2: WindowContainer<T>,
    child_idx: WindowIndex,
    parent_idx: WindowIndex,
    pos: Pos<i32>,
)
    requires
        c0.wf(),
        set_parent_outcome(c0, c1, child_idx, parent_idx, pos, Some(())),
        unset_parent_outcome(c1, c2, child_idx, Some(())),
    ensures
        c2.used_indices() == c0.used_indices(),
        c2.window_map()[child_idx.0].spec_parent_index() is None,
        c2.window_map()[parent_idx.0].spec_child_indices()
            == c0.window_map()[parent_idx.0].spec_child_indices().remove(child_idx.0),
{
    assert(parent_of(c1.window_map(), child_idx.0) == Some(parent_idx.0));
    assert(c0.window_map()[parent_idx.0].spec_child_indices().insert(child_idx.0).remove(child_idx.0)
        =~= c0.window_map()[parent_idx.0].spec_child_indices().remove(child_idx.0));
}

} // verus!
