use vstd::prelude::*;

use crate::drop_watcher::released;
use crate::drop_watcher::DropWatcher;

verus! {

/// A count is "leaked" when no release was observed.
pub open spec fn leaked(count: nat) -> bool {
    count == 0
}

/// A count is "properly dropped" when exactly one release was observed.
pub open spec fn properly_dropped(count: nat) -> bool {
    count == 1
}

/// A count is "illegally dropped" when more than one release was observed.
pub open spec fn illegally_dropped(count: nat) -> bool {
    count > 1
}

/// The record kept for one allocation: how many releases were observed,
/// and the payload handed over when it was allocated.
#[derive(Debug, Clone)]
pub struct DropMarkerState<T> {
    drop_count: usize,
    props: T,
}

impl<T> View for DropMarkerState<T> {
    /// (number of observed releases, payload)
    type V = (nat, T);

    closed spec fn view(&self) -> (nat, T) {
        (self.drop_count as nat, self.props)
    }
}

impl<T> DropMarkerState<T> {
    /// A record that has seen no release yet.
    pub(crate) fn fresh(props: T) -> (r: Self)
        ensures
            r@ == (0nat, props),
    {
        DropMarkerState { drop_count: 0, props }
    }

    /// Counts one more observed release.
    pub(crate) fn record_release(&mut self)
        requires
            old(self)@.0 < usize::MAX,
        ensures
            final(self)@ == (old(self)@.0 + 1, old(self)@.1),
    {
        self.drop_count = self.drop_count + 1;
    }

    pub fn drop_count(&self) -> (r: usize)
        ensures
            r == self@.0,
    {
        self.drop_count
    }

    pub fn props(&self) -> (r: &T)
        ensures
            *r == self@.1,
    {
        &self.props
    }

    pub fn is_properly_dropped(&self) -> (r: bool)
        ensures
            r == properly_dropped(self@.0),
    {
        self.drop_count == 1
    }

    pub fn is_illegally_dropped(&self) -> (r: bool)
        ensures
            r == illegally_dropped(self@.0),
    {
        self.drop_count > 1
    }

    pub fn is_leaked(&self) -> (r: bool)
        ensures
            r == leaked(self@.0),
    {
        self.drop_count == 0
    }
}

/// The token handed out for one allocation. Releasing it, by passing it to
/// `release`, is the one event that counts for its record; a token that is
/// never released leaves its record leaked.
#[derive(Debug)]
pub struct DropMarker<T> {
    id: usize,
    payload_type: core::marker::PhantomData<T>,
}

impl<T> View for DropMarker<T> {
    /// The token's id.
    type V = nat;

    closed spec fn view(&self) -> nat {
        self.id as nat
    }
}

impl<T> DropMarker<T> {
    /// The token for the record at `id`.
    pub(crate) fn bound_to(id: usize) -> (r: Self)
        ensures
            r@ == id,
    {
        DropMarker { id, payload_type: core::marker::PhantomData }
    }

    pub fn id(&self) -> (r: usize)
        ensures
            r == self@,
    {
        self.id
    }

    /// The payload of this token's record in `watcher`.
    pub fn props<'w>(&self, watcher: &'w DropWatcher<T>) -> (r: &'w T)
        requires
            self@ < watcher@.len(),
        ensures
            *r == watcher@[self@ as int].1,
    {
        watcher.watch(self.id).props()
    }

    /// Ends the token's life: `watcher` counts one release for its id.
    pub fn release(self, watcher: &mut DropWatcher<T>)
        requires
            self@ < old(watcher)@.len(),
            old(watcher)@[self@ as int].0 < usize::MAX,
        ensures
            final(watcher)@ == released(old(watcher)@, self@ as int),
    {
        watcher.notify_drop(self.id);
    }
}

/// Two tokens are equal when their ids are.
impl<T> PartialEq for DropMarker<T> {
    fn eq(&self, other: &Self) -> (r: bool) {
        self.id == other.id
    }
}

impl<T> vstd::std_specs::cmp::PartialEqSpecImpl for DropMarker<T> {
    open spec fn obeys_eq_spec() -> bool {
        true
    }

    open spec fn eq_spec(&self, other: &Self) -> bool {
        self@ == other@
    }
}

} // verus!
