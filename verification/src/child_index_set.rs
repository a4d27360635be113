//! A set of the indices of the child windows of a window.
use std::collections::BTreeSet;
use vstd::prelude::*;
use vstd::std_specs::iter::IteratorSpec;
use vstd::std_specs::btree::increasing_seq;
use vstd::std_specs::cmp::OrdSpec;
use vstd::laws_cmp::obeys_cmp;
use crate::types::WindowIndex;
use crate::window::ChildWindowIndex;

verus! {

broadcast use {vstd::std_specs::btree::group_btree_axioms, vstd::laws_cmp::group_laws_cmp};

/// A set of the indices of the child windows of a window.
pub struct ChildIndexSet {
    pub child_indices: BTreeSet<usize>,
}

impl ChildIndexSet {
    /// The indices of the child windows.
    pub open spec fn indices(&self) -> Set<usize> {
        self.child_indices@
    }

    pub fn new() -> (r: Self)
        ensures
            r.indices() == Set::<usize>::empty(),
    {
        ChildIndexSet { child_indices: BTreeSet::new() }
    }

    /// Returns the indices of the child windows in increasing order.
    pub fn child_index_iter(&self) -> (v: Vec<WindowIndex>)
        ensures
            v@.len() == self.indices().len(),
            forall|i: int, j: int| 0 <= i < j < v@.len() ==> v@[i].0 < v@[j].0,
            forall|i: int| 0 <= i < v@.len() ==> self.indices().contains(#[trigger] v@[i].0),
            forall|k: usize| #[trigger] self.indices().contains(k) ==> exists|i: int| 0 <= i < v@.len() && v@[i].0 == k,
    {
        let mut v: Vec<WindowIndex> = Vec::new();
        let ghost keys = self.child_indices.iter().remaining().unref();
        proof {
            let r = self.child_indices.iter().remaining();
            assert(obeys_cmp::<usize>());
            assert(obeys_cmp::<&usize>());
            assert(increasing_seq(r));
            assert forall|i: int, j: int| 0 <= i < j < keys.len() implies keys[i] < keys[j] by {
                let a: &usize = r[i];
                let b: &usize = r[j];
                assert((&a).cmp_spec(&b) is Less);
            }
        }
        for k in it: self.child_indices.iter()
            invariant
                keys == it.seq().unref(),
                keys.to_set() == self.child_indices@,
                keys.no_duplicates(),
                keys.len() == self.child_indices@.len(),
                forall|i: int, j: int| 0 <= i < j < keys.len() ==> keys[i] < keys[j],
                v@.len() == it.index(),
                forall|i: int| 0 <= i < v@.len() ==> #[trigger] v@[i].0 == keys[i],
        {
            v.push(WindowIndex(*k));
        }
        proof {
            assert forall|k: usize| #[trigger] self.indices().contains(k) implies exists|i: int| 0 <= i < v@.len() && v@[i].0 == k by {
                assert(keys.to_set().contains(k));
                let i = keys.index_of(k);
                assert(v@[i].0 == k);
            }
            assert forall|i: int| 0 <= i < v@.len() implies self.indices().contains(#[trigger] v@[i].0) by {
                assert(keys.to_set().contains(keys[i]));
            }
        }
        v
    }

    /// Adds the index of a child window; returns `Some(())` if it was not there.
    pub fn add(&mut self, idx: ChildWindowIndex) -> (r: Option<()>)
        ensures
            final(self).indices() == old(self).indices().insert(idx.spec_window_index().0),
            r is Some <==> !old(self).indices().contains(idx.spec_window_index().0),
            r is None ==> *final(self) == *old(self),
    {
        let k = idx.window_index().0;
        if self.child_indices.contains(&k) {
            None
        } else {
            self.child_indices.insert(k);
            Some(())
        }
    }

    /// Removes the index of a child window; returns `Some(())` if it was there.
    pub fn remove(&mut self, idx: ChildWindowIndex) -> (r: Option<()>)
        ensures
            final(self).indices() == old(self).indices().remove(idx.spec_window_index().0),
            r is Some <==> old(self).indices().contains(idx.spec_window_index().0),
            r is None ==> *final(self) == *old(self),
    {
        let k = idx.window_index().0;
        if self.child_indices.contains(&k) {
            self.child_indices.remove(&k);
            Some(())
        } else {
            None
        }
    }
}

} // verus!
