//! Sequences of outcomes, of which the first failure decides.

use vstd::prelude::*;

verus! {

/// No outcome is a failure.
pub open spec fn all_ok<T, E>(outcomes: Seq<Result<T, E>>) -> bool {
    forall|i: int| 0 <= i < outcomes.len() ==> (#[trigger] outcomes[i]) is Ok
}

/// Outcome `i` is a failure and none before it is.
pub open spec fn first_err_at<T, E>(outcomes: Seq<Result<T, E>>, i: int) -> bool {
    &&& 0 <= i < outcomes.len()
    &&& outcomes[i] is Err
    &&& all_ok(outcomes.take(i))
}

/// What the outcomes hold where none is a failure.
pub open spec fn values<T, E>(outcomes: Seq<Result<T, E>>) -> Seq<T>
    recommends
        all_ok(outcomes),
{
    outcomes.map_values(|outcome: Result<T, E>| outcome->Ok_0)
}

/// At most one outcome is the first failure.
pub proof fn lemma_one_first_err<T, E>(outcomes: Seq<Result<T, E>>, i: int)
    requires
        first_err_at(outcomes, i),
    ensures
        forall|j: int| #[trigger] first_err_at(outcomes, j) ==> j == i,
{
    assert forall|j: int| #[trigger] first_err_at(outcomes, j) implies j == i by {
        if j < i {
            assert(outcomes.take(i)[j] is Ok);
        } else if i < j {
            assert(outcomes.take(j)[i] is Ok);
        }
    }
}

} // verus!
