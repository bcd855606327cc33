use vstd::prelude::*;

use crate::drop_marker::DropMarker;
use crate::drop_marker::DropMarkerState;

verus! {

/// The registry after one more allocation with payload `props`: a record
/// that has seen no release is appended, at id `s.len()`.
pub open spec fn allocated<T>(s: Seq<(nat, T)>, props: T) -> Seq<(nat, T)> {
    s.push((0nat, props))
}

/// The registry after one release notification for `id`: that record's
/// count goes up by one, every other record and every payload stay.
pub open spec fn released<T>(s: Seq<(nat, T)>, id: int) -> Seq<(nat, T)> {
    s.update(id, (s[id].0 + 1, s[id].1))
}

/// The registry that hands out tokens and counts, per token, how many
/// releases it observed. A token's id is the position of its record.
///
/// Every change goes through `&mut self`, so no read view handed out by
/// `watch` or `markers` can be held across an allocation or a release.
#[derive(Debug)]
pub struct DropWatcher<T> {
    markers: Vec<DropMarkerState<T>>,
}

impl<T> View for DropWatcher<T> {
    /// One (release count, payload) pair per allocation, in allocation order.
    type V = Seq<(nat, T)>;

    closed spec fn view(&self) -> Seq<(nat, T)> {
        self.markers@.map_values(|m: DropMarkerState<T>| m@)
    }
}

impl<T> DropWatcher<T> {
    /// An empty registry.
    pub fn new() -> (r: Self)
        ensures
            r@ == Seq::<(nat, T)>::empty(),
    {
        let r = DropWatcher { markers: Vec::new() };
        assert(r@ =~= Seq::<(nat, T)>::empty());
        r
    }

    /// Counts one release of the token with id `id`. Tokens call this when
    /// they are released; calling it again for the same id records a double
    /// release on purpose.
    pub fn notify_drop(&mut self, id: usize)
        requires
            id < old(self)@.len(),
            old(self)@[id as int].0 < usize::MAX,
        ensures
            final(self)@ == released(old(self)@, id as int),
    {
        self.markers[id].record_release();
        assert(self@ =~= released(old(self)@, id as int));
    }

    /// Appends a fresh record holding `props` and returns the token for it;
    /// its id is the number of records before the call.
    pub fn allocate(&mut self, props: T) -> (m: DropMarker<T>)
        ensures
            m@ == old(self)@.len(),
            final(self)@ == allocated(old(self)@, props),
    {
        let id = self.markers.len();
        self.markers.push(DropMarkerState::fresh(props));
        assert(self@ =~= allocated(old(self)@, props));
        DropMarker::bound_to(id)
    }

    /// The record of the token with id `id`.
    pub fn watch(&self, id: usize) -> (r: &DropMarkerState<T>)
        requires
            id < self@.len(),
        ensures
            r@ == self@[id as int],
    {
        &self.markers[id]
    }

    /// Every record, in allocation order.
    pub fn markers(&self) -> (r: &[DropMarkerState<T>])
        ensures
            r@.len() == self@.len(),
            forall|i: int| 0 <= i < r@.len() ==> #[trigger] r@[i]@ == self@[i],
    {
        self.markers.as_slice()
    }
}

} // verus!
