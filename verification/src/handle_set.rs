//! Sets of asset handles.

use vstd::prelude::*;

verus! {

/// A set of asset handles, kept in a `bevy::utils::HashSet<u64>`.
#[verifier::external_body]
pub struct HandleSet {
    inner: bevy::utils::HashSet<u64>,
}

/// The handles that a set holds.
pub uninterp spec fn handles_in(set: HandleSet) -> Set<u64>;

impl View for HandleSet {
    type V = Set<u64>;

    open spec fn view(&self) -> Set<u64> {
        handles_in(*self)
    }
}

impl HandleSet {
    /// `HashSet::default`: a set that holds nothing.
    #[verifier::external_body]
    pub(crate) fn new() -> (set: HandleSet)
        ensures
            handles_in(set) == Set::<u64>::empty(),
    {
        HandleSet { inner: bevy::utils::HashSet::default() }
    }

    /// `HashSet::insert`: adds the handle to the set, and returns whether
    /// the set did not hold it before.
    #[verifier::external_body]
    pub(crate) fn insert(&mut self, handle: u64) -> (fresh: bool)
        ensures
            handles_in(*final(self)) == handles_in(*old(self)).insert(handle),
            fresh == !handles_in(*old(self)).contains(handle),
    {
        self.inner.insert(handle)
    }

    /// `HashSet::remove`: takes the handle out of the set, and returns
    /// whether the set held it.
    #[verifier::external_body]
    pub(crate) fn remove(&mut self, handle: u64) -> (present: bool)
        ensures
            handles_in(*final(self)) == handles_in(*old(self)).remove(handle),
            present == handles_in(*old(self)).contains(handle),
    {
        self.inner.remove(&handle)
    }

    /// `HashSet::contains`: whether the set holds the handle.
    #[verifier::external_body]
    pub(crate) fn has(&self, handle: u64) -> (present: bool)
        ensures
            present == handles_in(*self).contains(handle),
    {
        self.inner.contains(&handle)
    }

    /// `HashSet::drain`: empties the set and hands out every handle it
    /// held, each once, in an order of the set's choosing.
    #[verifier::external_body]
    pub(crate) fn drain(&mut self) -> (handles: Vec<u64>)
        ensures
            handles_in(*final(self)) == Set::<u64>::empty(),
            handles@.no_duplicates(),
            handles@.to_set() == handles_in(*old(self)),
    {
        self.inner.drain().collect()
    }

    /// Whether the set holds the handle.
    pub fn contains(&self, handle: u64) -> (present: bool)
        ensures
            present == self@.contains(handle),
    {
        self.has(handle)
    }
}

} // verus!
