//! A group of radios, of which one is selected.
use std::sync::atomic::AtomicUsize;
use std::sync::atomic::Ordering;
use vstd::prelude::*;

verus! {

/// A group of radios, shared by its radios: the selection number of the selected radio and the
/// number of radios that joined the group.
///
/// The numbers are atomic, so that the radios that share the group read and change them
/// through shared references; their values are not tracked by the contracts.
pub struct RadioGroup {
    selected: AtomicUsize,
    count: AtomicUsize,
}

impl RadioGroup {
    pub fn new() -> RadioGroup {
        RadioGroup { selected: AtomicUsize::new(0), count: AtomicUsize::new(0) }
    }

    /// Returns the selection number of the selected radio.
    pub fn selected(&self) -> usize {
        self.selected.load(Ordering::SeqCst)
    }

    /// Selects the radio with the selection number and returns the number.
    pub fn select(&self, selected: usize) -> (r: usize)
        ensures
            r == selected,
    {
        self.selected.store(selected, Ordering::SeqCst);
        selected
    }

    /// Returns the number of radios that joined the group.
    pub fn count(&self) -> usize {
        self.count.load(Ordering::SeqCst)
    }

    /// Counts one more radio and returns the new count, which is the selection number of the
    /// radio; the count wraps around on overflow.
    pub fn increase_count(&self) -> usize {
        self.count.fetch_add(1, Ordering::SeqCst).wrapping_add(1)
    }
}

} // verus!
