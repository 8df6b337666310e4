//! The overall result: the conjunction of every probe's success.

use vstd::prelude::*;

verus! {

/// The overall result of a run: true exactly when every probe succeeded.
/// Over no probes at all it is true.
pub open spec fn all_success(outcomes: Seq<bool>) -> bool {
    forall|i: int| 0 <= i < outcomes.len() ==> outcomes[i]
}

/// One step of the fold: the result so far and the next probe's success.
pub fn fold_step(overall: bool, success: bool) -> (next: bool)
    ensures
        next == (overall && success),
{
    overall && success
}

/// Folds every outcome into the overall result, seeded with true. Every
/// outcome is consumed: a failure does not end the fold early.
pub fn aggregate(outcomes: &Vec<bool>) -> (overall: bool)
    ensures
        overall == all_success(outcomes@),
{
    let mut overall: bool = true;
    let mut i: usize = 0;
    while i < outcomes.len()
        invariant
            i <= outcomes.len(),
            overall == all_success(outcomes@.take(i as int)),
        decreases outcomes.len() - i,
    {
        proof {
            lemma_all_success_push(outcomes@.take(i as int), outcomes@[i as int]);
            assert(outcomes@.take(i as int).push(outcomes@[i as int]) =~= outcomes@.take(
                i as int + 1,
            ));
        }
        overall = fold_step(overall, outcomes[i]);
        i = i + 1;
    }
    assert(outcomes@.take(i as int) =~= outcomes@);
    overall
}

/// Adding one outcome leaves the overall result true only if it was true
/// and the new probe succeeded.
pub proof fn lemma_all_success_push(outcomes: Seq<bool>, success: bool)
    ensures
        all_success(outcomes.push(success)) == (all_success(outcomes) && success),
{
    let longer = outcomes.push(success);
    if all_success(outcomes) && success {
        assert forall|i: int| 0 <= i < longer.len() implies longer[i] by {
            if i < outcomes.len() {
                assert(longer[i] == outcomes[i]);
            }
        }
    } else if !success {
        assert(!longer[outcomes.len() as int]);
    } else {
        let i = choose|i: int| 0 <= i < outcomes.len() && !outcomes[i];
        assert(!longer[i]);
    }
}

/// The overall result is true exactly when no failed probe is among the
/// outcomes.
pub proof fn lemma_all_success_no_failure(outcomes: Seq<bool>)
    ensures
        all_success(outcomes) <==> !outcomes.contains(false),
{
    if !all_success(outcomes) {
        let i = choose|i: int| 0 <= i < outcomes.len() && !outcomes[i];
        assert(outcomes[i] == false);
    }
}

/// The overall result does not depend on the order in which probes
/// complete: two runs with the same outcomes, counted with multiplicity,
/// agree.
pub proof fn law_result_ignores_order(first: Seq<bool>, second: Seq<bool>)
    requires
        first.to_multiset() == second.to_multiset(),
    ensures
        all_success(first) == all_success(second),
{
    lemma_all_success_no_failure(first);
    lemma_all_success_no_failure(second);
    vstd::seq_lib::to_multiset_contains(first, false);
    vstd::seq_lib::to_multiset_contains(second, false);
}

} // verus!
