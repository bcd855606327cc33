use vstd::prelude::*;

use crate::drop_marker::illegally_dropped;
use crate::drop_marker::leaked;
use crate::drop_marker::properly_dropped;
use crate::drop_watcher::allocated;
use crate::drop_watcher::released;

verus! {

/// The registry after allocating each of `props` in turn, starting from `s`.
pub open spec fn allocated_all<T>(s: Seq<(nat, T)>, props: Seq<T>) -> Seq<(nat, T)>
    decreases props.len(),
{
    if props.len() == 0 {
        s
    } else {
        allocated(allocated_all(s, props.drop_last()), props.last())
    }
}

/// The registry after one release notification for each of `ids`, in turn.
pub open spec fn released_all<T>(s: Seq<(nat, T)>, ids: Seq<int>) -> Seq<(nat, T)>
    decreases ids.len(),
{
    if ids.len() == 0 {
        s
    } else {
        released(released_all(s, ids.drop_last()), ids.last())
    }
}

/// How many times `id` occurs in `ids`.
pub open spec fn occurrences(ids: Seq<int>, id: int) -> nat
    decreases ids.len(),
{
    if ids.len() == 0 {
        0
    } else {
        occurrences(ids.drop_last(), id) + if ids.last() == id {
            1nat
        } else {
            0nat
        }
    }
}

/// Allocating `props` one by one on an empty registry hands out the ids
/// 0, 1, ..., n - 1 in call order (the k-th call sees k records before it),
/// and leaves one record per allocation, in allocation order, each with no
/// release yet and with the payload given to its allocation.
pub proof fn lemma_ids_sequential<T>(props: Seq<T>)
    ensures
        forall|k: int|
            0 <= k <= props.len() ==> #[trigger] allocated_all(
                Seq::<(nat, T)>::empty(),
                props.take(k),
            ).len() == k,
        allocated_all(Seq::<(nat, T)>::empty(), props).len() == props.len(),
        forall|k: int|
            0 <= k < props.len() ==> #[trigger] allocated_all(Seq::<(nat, T)>::empty(), props)[k]
                == (0nat, props[k]),
    decreases props.len(),
{
    let e = Seq::<(nat, T)>::empty();
    if props.len() > 0 {
        lemma_ids_sequential(props.drop_last());
        assert forall|k: int| 0 <= k <= props.len() implies #[trigger] allocated_all(
            e,
            props.take(k),
        ).len() == k by {
            if k < props.len() {
                assert(props.take(k) =~= props.drop_last().take(k));
            } else {
                assert(props.take(k) =~= props);
            }
        }
    }
}

/// An allocation leaves every record that was there before unchanged.
pub proof fn lemma_allocation_keeps_records<T>(s: Seq<(nat, T)>, props: T)
    ensures
        allocated(s, props).len() == s.len() + 1,
        forall|i: int| 0 <= i < s.len() ==> #[trigger] allocated(s, props)[i] == s[i],
{
}

/// After a run of release notifications whose ids are all in range, each
/// record's count has grown by the number of notifications for its id, and
/// every payload is the one it had before.
pub proof fn lemma_release_counts<T>(s: Seq<(nat, T)>, ids: Seq<int>)
    requires
        forall|k: int| 0 <= k < ids.len() ==> 0 <= #[trigger] ids[k] < s.len(),
    ensures
        released_all(s, ids).len() == s.len(),
        forall|i: int|
            0 <= i < s.len() ==> #[trigger] released_all(s, ids)[i] == (
                s[i].0 + occurrences(ids, i),
                s[i].1,
            ),
    decreases ids.len(),
{
    if ids.len() > 0 {
        let rest = ids.drop_last();
        assert forall|k: int| 0 <= k < rest.len() implies 0 <= #[trigger] rest[k] < s.len() by {
            assert(rest[k] == ids[k]);
        }
        lemma_release_counts(s, rest);
        assert(0 <= ids[ids.len() - 1] < s.len());
    }
}

/// A token released exactly once, among any other in-range release
/// notifications, leaves its record properly dropped: count one, neither
/// leaked nor illegally dropped.
pub proof fn lemma_released_once<T>(s: Seq<(nat, T)>, props: T, ids: Seq<int>)
    requires
        forall|k: int| 0 <= k < ids.len() ==> 0 <= #[trigger] ids[k] <= s.len(),
        occurrences(ids, s.len() as int) == 1,
    ensures
        ({
            let count = released_all(allocated(s, props), ids)[s.len() as int].0;
            &&& count == 1
            &&& properly_dropped(count)
            &&& !leaked(count)
            &&& !illegally_dropped(count)
        }),
{
    lemma_release_counts(allocated(s, props), ids);
}

/// A token that is never released, whatever other in-range release
/// notifications happen, leaves its record leaked with count zero.
pub proof fn lemma_never_released<T>(s: Seq<(nat, T)>, props: T, ids: Seq<int>)
    requires
        forall|k: int| 0 <= k < ids.len() ==> 0 <= #[trigger] ids[k] <= s.len(),
        occurrences(ids, s.len() as int) == 0,
    ensures
        ({
            let count = released_all(allocated(s, props), ids)[s.len() as int].0;
            &&& count == 0
            &&& leaked(count)
        }),
{
    lemma_release_counts(allocated(s, props), ids);
}

/// One more release notification for a record already at count one takes it
/// to two, which is an illegal drop.
pub proof fn lemma_second_release<T>(s: Seq<(nat, T)>, id: int)
    requires
        0 <= id < s.len(),
        s[id].0 == 1,
    ensures
        released(s, id)[id].0 == 2,
        illegally_dropped(released(s, id)[id].0),
{
}

/// A record's payload is the one given at its allocation, whatever release
/// notifications come after.
pub proof fn lemma_payload_kept<T>(s: Seq<(nat, T)>, props: T, ids: Seq<int>)
    requires
        forall|k: int| 0 <= k < ids.len() ==> 0 <= #[trigger] ids[k] <= s.len(),
    ensures
        released_all(allocated(s, props), ids)[s.len() as int].1 == props,
{
    lemma_release_counts(allocated(s, props), ids);
}

} // verus!
