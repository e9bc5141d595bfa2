//! Laws of the session registry over runs of operations.
use vstd::prelude::*;

verus! {

/// A run of registrations from a new registry: `states[i]` is the set of ids
/// issued before registration `i`, which returned `ids[i]`. Kills in between
/// leave the issued set alone; without them it is also the live set.
pub open spec fn registration_run(states: Seq<Set<u128>>, ids: Seq<u128>) -> bool {
    &&& states.len() == ids.len() + 1
    &&& states[0] == Set::<u128>::empty()
    &&& forall|i: int| 0 <= i < ids.len() ==> !(#[trigger] states[i]).contains(ids[i])
        && states[i + 1] == states[i].insert(ids[i])
}

/// Registering sessions one after another, in whatever order concurrent
/// callers reach the registry and whatever is killed in between, gives
/// pairwise-distinct ids that are never reused, and the registry has then
/// issued exactly those ids.
pub proof fn lemma_registrations_distinct(states: Seq<Set<u128>>, ids: Seq<u128>)
    requires
        registration_run(states, ids),
    ensures
        ids.no_duplicates(),
        states.last() == ids.to_set(),
    decreases ids.len(),
{
    if ids.len() == 0 {
        assert(ids.to_set() =~= Set::<u128>::empty());
    } else {
        let n = ids.len() - 1;
        let ps = states.drop_last();
        let pi = ids.drop_last();
        assert forall|i: int| 0 <= i < pi.len() implies !(#[trigger] ps[i]).contains(pi[i])
            && ps[i + 1] == ps[i].insert(pi[i]) by {
            assert(!states[i].contains(ids[i]));
        }
        lemma_registrations_distinct(ps, pi);
        assert(!states[n].contains(ids[n]));
        assert(ids =~= pi.push(ids[n]));
        pi.lemma_push_to_set_commute(ids[n]);
        assert forall|i: int, j: int| 0 <= i < ids.len() && 0 <= j < ids.len() && i != j implies ids[i] != ids[j] by {
            if i < n && j < n {
                assert(pi[i] != pi[j]);
            } else if i == n {
                assert(pi.to_set().contains(pi[j]));
            } else {
                assert(pi.to_set().contains(pi[i]));
            }
        }
    }
}

} // verus!
