//! What the courses of the operations have in common.

use vstd::prelude::*;

verus! {

/// What is among some outcomes is still among them when one more has come, and so
/// is that one.
pub(crate) proof fn outcomes_stay<T>(past: Seq<T>, now: Seq<T>)
    requires
        now.len() > 0,
        past =~= now.drop_last(),
    ensures
        forall|outcome: T| #[trigger] past.contains(outcome) ==> now.contains(outcome),
        now.contains(now.last()),
{
    assert(now[now.len() - 1] == now.last());
    assert forall|outcome: T| #[trigger] past.contains(outcome) implies now.contains(outcome) by {
        let k = choose|k: int| 0 <= k < past.len() && past[k] == outcome;
        assert(now[k] == outcome);
    }
}

} // verus!
