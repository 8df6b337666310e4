//! A whole run against a scripted backend.
//!
//! [`replay`] drives the dispatcher over a list of URLs whose answers are
//! known in advance, completing the probes in a chosen order. It performs no
//! I/O: what a live run would print is returned as a transcript.

use crate::aggregate::all_success;
use crate::dispatch::{Dispatcher, Event, Wait};
use crate::probe::{
    outcome_spec, Emission, EmissionView, OutcomeView, ProbeOutcome, Response, ResponseView,
};
use crate::settings::Settings;
use vstd::prelude::*;
use vstd::seq_lib::{to_multiset_build, to_multiset_contains, to_multiset_remove};

verus! {

/// One entry of a scripted backend: a URL and what the transport returns
/// for it.
#[derive(Clone, Debug, PartialEq, Eq)]
pub struct Exchange {
    pub url: String,
    pub response: Response,
}

/// Mathematical value of an [`Exchange`].
pub struct ExchangeView {
    pub url: Seq<char>,
    pub response: ResponseView,
}

impl View for Exchange {
    type V = ExchangeView;

    open spec fn view(&self) -> ExchangeView {
        ExchangeView { url: self.url@, response: self.response@ }
    }
}

/// What a run produced, in the order in which the probes completed.
#[derive(Clone, Debug, PartialEq, Eq)]
pub struct Transcript {
    /// One outcome for each probe.
    pub outcomes: Vec<ProbeOutcome>,
    /// What each probe wrote, in step with `outcomes`.
    pub emissions: Vec<Emission>,
    /// The overall result: whether every probe succeeded.
    pub success: bool,
    /// The largest number of probes that were in flight at once.
    pub peak: usize,
}

/// Mathematical value of a [`Transcript`].
pub struct TranscriptView {
    pub outcomes: Seq<OutcomeView>,
    pub emissions: Seq<EmissionView>,
    pub success: bool,
    pub peak: nat,
}

impl View for Transcript {
    type V = TranscriptView;

    open spec fn view(&self) -> TranscriptView {
        TranscriptView {
            outcomes: Seq::new(self.outcomes.len() as nat, |i: int| self.outcomes[i]@),
            emissions: Seq::new(self.emissions.len() as nat, |i: int| self.emissions[i]@),
            success: self.success,
            peak: self.peak as nat,
        }
    }
}

/// Why a run cannot be replayed.
#[derive(Clone, Copy, Debug, PartialEq, Eq, Structural)]
pub enum ReplayError {
    /// The settings allow no probe in flight.
    NoWindow,
    /// The completion order does not name every probe exactly once.
    NotAPermutation,
    /// The completion order has a probe complete before the window could
    /// have admitted it.
    OutsideWindow,
}

/// The script as mathematical values.
pub open spec fn script_view(script: Seq<Exchange>) -> Seq<ExchangeView> {
    Seq::new(script.len(), |i: int| script[i]@)
}

/// The outcome of each scripted probe, in submission order.
pub open spec fn outcomes_of(script: Seq<ExchangeView>) -> Seq<OutcomeView> {
    Seq::new(script.len(), |i: int| outcome_spec(script[i].url, script[i].response))
}

/// What each outcome writes.
pub open spec fn emissions_of(outcomes: Seq<OutcomeView>, quiet: bool) -> Seq<EmissionView> {
    Seq::new(outcomes.len(), |i: int| outcomes[i].emission(quiet))
}

/// Whether each outcome is a success.
pub open spec fn successes_of(outcomes: Seq<OutcomeView>) -> Seq<bool> {
    Seq::new(outcomes.len(), |i: int| outcomes[i].is_success())
}

/// `order` names each of `count` probes exactly once.
pub open spec fn is_permutation(order: Seq<usize>, count: nat) -> bool {
    &&& order.len() == count
    &&& forall|k: int| 0 <= k < order.len() ==> #[trigger] order[k] < count
    &&& forall|j: int, k: int| 0 <= j < k < order.len() ==> order[j] != order[k]
}

/// Items are admitted in submission order, and only while fewer than
/// `concurrency` probes are in flight. So the probe that completes after
/// `k` others is one of the first `k + concurrency` submitted.
pub open spec fn within_window(order: Seq<usize>, concurrency: nat) -> bool {
    forall|k: int| 0 <= k < order.len() ==> #[trigger] order[k] < k + concurrency
}

/// `items` rearranged: the element at position `k` is `items[order[k]]`.
pub open spec fn permuted<A>(items: Seq<A>, order: Seq<usize>) -> Seq<A> {
    Seq::new(order.len(), |k: int| items[order[k] as int])
}

/// The transcript of a run over `script` in which the probes complete in
/// `order`, with room for `concurrency` probes in flight.
pub open spec fn replayed(
    script: Seq<ExchangeView>,
    quiet: bool,
    concurrency: nat,
    order: Seq<usize>,
) -> TranscriptView {
    let outcomes = permuted(outcomes_of(script), order);
    TranscriptView {
        outcomes,
        emissions: emissions_of(outcomes, quiet),
        success: all_success(successes_of(outcomes)),
        peak: if concurrency <= script.len() {
            concurrency
        } else {
            script.len()
        },
    }
}

/// Tells whether `order` names each of `count` probes exactly once.
fn check_permutation(order: &Vec<usize>, count: usize) -> (ok: bool)
    ensures
        ok == is_permutation(order@, count as nat),
{
    if order.len() != count {
        return false;
    }
    let mut seen: Vec<bool> = Vec::new();
    let mut i: usize = 0;
    while i < count
        invariant
            i <= count,
            seen.len() == i,
            forall|j: int| 0 <= j < i ==> !seen[j],
        decreases count - i,
    {
        seen.push(false);
        i = i + 1;
    }
    let mut k: usize = 0;
    while k < count
        invariant
            k <= count,
            order.len() == count,
            seen.len() == count,
            forall|j: int| 0 <= j < k ==> #[trigger] order[j] < count,
            forall|a: int, b: int| 0 <= a < b < k ==> order[a] != order[b],
            forall|v: int|
                0 <= v < count ==> (#[trigger] seen[v] <==> exists|j: int|
                    0 <= j < k && order[j] == v),
        decreases count - k,
    {
        let named: usize = order[k];
        if named >= count {
            return false;
        }
        if seen[named] {
            proof {
                let j = choose|j: int| 0 <= j < k && order[j] == named;
                assert(order@[j] == order@[k as int]);
            }
            return false;
        }
        let ghost before = seen@;
        seen.set(named, true);
        proof {
            assert forall|v: int| 0 <= v < count implies (#[trigger] seen[v] <==> exists|j: int|
                0 <= j < k + 1 && order[j] == v) by {
                if v == named {
                    assert(order[k as int] == v);
                } else {
                    assert(seen[v] == before[v]);
                    if before[v] {
                        let j = choose|j: int| 0 <= j < k && order[j] == v;
                        assert(0 <= j < k + 1 && order[j] == v);
                    }
                }
            }
            assert forall|a: int, b: int| 0 <= a < b < k + 1 implies order[a] != order[b] by {
                if b == k && order[a] == order[b] {
                    assert(before[named as int]);
                }
            }
        }
        k = k + 1;
    }
    true
}

/// Tells whether every completion in `order` is of a probe the window
/// could have admitted by then.
fn check_window(order: &Vec<usize>, concurrency: usize) -> (ok: bool)
    ensures
        ok == within_window(order@, concurrency as nat),
{
    let mut k: usize = 0;
    while k < order.len()
        invariant
            k <= order.len(),
            forall|j: int| 0 <= j < k ==> #[trigger] order[j] < j + concurrency,
        decreases order.len() - k,
    {
        let named: usize = order[k];
        if named >= k && named - k >= concurrency {
            assert(!(order@[k as int] < k + concurrency));
            return false;
        }
        k = k + 1;
    }
    true
}

/// Replays a run: every URL of `script` is probed once, the dispatcher
/// admits them in submission order as its window allows, and the probes
/// complete in `order`. The transcript lists, in completion order, each
/// outcome and what it writes under the settings' quiet flag, the overall
/// result, and the most probes that were in flight at once.
pub fn replay(script: &Vec<Exchange>, settings: &Settings, order: &Vec<usize>) -> (run: Result<
    Transcript,
    ReplayError,
>)
    ensures
        match run {
            Ok(transcript) => {
                &&& settings.wf()
                &&& is_permutation(order@, script.len() as nat)
                &&& within_window(order@, settings.threads as nat)
                &&& transcript@ == replayed(
                    script_view(script@),
                    settings.quiet,
                    settings.threads as nat,
                    order@,
                )
            },
            Err(ReplayError::NoWindow) => !settings.wf(),
            Err(ReplayError::NotAPermutation) => {
                &&& settings.wf()
                &&& !is_permutation(order@, script.len() as nat)
            },
            Err(ReplayError::OutsideWindow) => {
                &&& settings.wf()
                &&& is_permutation(order@, script.len() as nat)
                &&& !within_window(order@, settings.threads as nat)
            },
        },
{
    let count: usize = script.len();
    let concurrency: usize = settings.threads;
    let quiet = settings.quiet;
    let made = Dispatcher::new(concurrency);
    if made.is_none() {
        return Err(ReplayError::NoWindow);
    }
    if !check_permutation(order, count) {
        return Err(ReplayError::NotAPermutation);
    }
    if !check_window(order, concurrency) {
        return Err(ReplayError::OutsideWindow);
    }
    let mut dispatcher = made.unwrap();
    let mut outcomes: Vec<ProbeOutcome> = Vec::new();
    let mut emissions: Vec<Emission> = Vec::new();
    let mut admitted: usize = 0;
    let mut exhausted = false;
    let mut peak: usize = 0;
    let ghost expected = permuted(outcomes_of(script_view(script@)), order@);
    loop
        invariant
            count == script.len(),
            concurrency == settings.threads,
            quiet == settings.quiet,
            concurrency >= 1,
            is_permutation(order@, count as nat),
            within_window(order@, concurrency as nat),
            expected == permuted(outcomes_of(script_view(script@)), order@),
            dispatcher@.wf(),
            dispatcher@.concurrency == concurrency,
            dispatcher@.admitted == admitted,
            admitted <= count,
            dispatcher@.closed() == exhausted,
            exhausted ==> admitted == count,
            outcomes.len() == dispatcher@.outcomes.len(),
            emissions.len() == outcomes.len(),
            forall|j: int| 0 <= j < outcomes.len() ==> (#[trigger] outcomes[j])@ == expected[j],
            forall|j: int|
                0 <= j < outcomes.len() ==> (#[trigger] emissions[j])@ == expected[j].emission(
                    quiet,
                ),
            forall|j: int|
                0 <= j < outcomes.len() ==> #[trigger] dispatcher@.outcomes[j]
                    == expected[j].is_success(),
            outcomes.len() == 0 ==> peak == admitted,
            outcomes.len() > 0 ==> peak == if concurrency <= count {
                concurrency
            } else {
                count
            },
        ensures
            dispatcher@.phase is Done,
        decreases
                (count - admitted) + (count - outcomes.len()) + if exhausted {
                    0int
                } else {
                    1int
                },
    {
        match dispatcher.awaits() {
            Wait::Nothing => {
                break ;
            },
            Wait::Completion => {
                let k: usize = outcomes.len();
                // The probe that completes now has been admitted.
                assert(order@[k as int] < admitted);
                let exchange = &script[order[k]];
                let outcome = ProbeOutcome::observe(exchange.url.as_str(), &exchange.response);
                let emitted = outcome.emission(quiet);
                let told = dispatcher.step(Event::Completed(outcome.is_success()));
                assert(told is Ok);
                assert(outcome@ == expected[k as int]);
                outcomes.push(outcome);
                emissions.push(emitted);
            },
            _ => {
                if admitted < count {
                    let told = dispatcher.step(Event::Admitted);
                    assert(told is Ok);
                    admitted = admitted + 1;
                    let flying: usize = dispatcher.in_flight();
                    if flying > peak {
                        peak = flying;
                    }
                } else {
                    let told = dispatcher.step(Event::Exhausted);
                    assert(told is Ok);
                    exhausted = true;
                }
            },
        }
    }
    let overall = dispatcher.result();
    let transcript = Transcript { outcomes, emissions, success: overall.unwrap(), peak };
    proof {
        let want = replayed(
            script_view(script@),
            settings.quiet,
            settings.threads as nat,
            order@,
        );
        assert(transcript@.outcomes =~= want.outcomes);
        assert(transcript@.emissions =~= want.emissions);
        assert(dispatcher@.outcomes =~= successes_of(want.outcomes));
    }
    Ok(transcript)
}

/// Rearranging a sequence by a permutation keeps every element, each as
/// often as before.
pub proof fn lemma_permuted_multiset<A>(items: Seq<A>, order: Seq<usize>)
    requires
        is_permutation(order, items.len()),
    ensures
        permuted(items, order).to_multiset() == items.to_multiset(),
    decreases items.len(),
{
    let n = items.len() as int;
    let arranged = permuted(items, order);
    if n == 0 {
        assert(arranged =~= items);
    } else {
        let last = order[n - 1] as int;
        let fewer = items.remove(last);
        let renumbered = Seq::new(
            (n - 1) as nat,
            |k: int|
                if order[k] > last {
                    (order[k] - 1) as usize
                } else {
                    order[k]
                },
        );
        assert forall|k: int| 0 <= k < n - 1 implies order[k] != last && #[trigger] renumbered[k]
            < n - 1 by {
            assert(order[k] != order[n - 1]);
            assert(order[k] < n);
        }
        assert forall|j: int, k: int| 0 <= j < k < n - 1 implies renumbered[j]
            != renumbered[k] by {
            assert(order[j] != order[k]);
            assert(order[j] != order[n - 1]);
            assert(order[k] != order[n - 1]);
        }
        assert(is_permutation(renumbered, fewer.len()));
        lemma_permuted_multiset(fewer, renumbered);
        assert(arranged.drop_last() =~= permuted(fewer, renumbered)) by {
            assert forall|k: int| 0 <= k < n - 1 implies arranged[k]
                == fewer[renumbered[k] as int] by {
                assert(order[k] != order[n - 1]);
                assert(order[k] < n);
            }
        }
        assert(arranged =~= arranged.drop_last().push(items[last]));
        to_multiset_build(arranged.drop_last(), items[last]);
        to_multiset_remove(items, last);
        assert(items.contains(items[last]));
        to_multiset_contains(items, items[last]);
        assert(items.to_multiset().remove(items[last]).insert(items[last])
            =~= items.to_multiset());
    }
}

/// For every submitted URL exactly one outcome is produced: a run's
/// outcomes are those of the script, none lost and none twice, and so are
/// the lines it writes.
pub proof fn law_one_outcome_per_url(
    script: Seq<ExchangeView>,
    quiet: bool,
    concurrency: nat,
    order: Seq<usize>,
)
    requires
        is_permutation(order, script.len()),
    ensures
        replayed(script, quiet, concurrency, order).outcomes.len() == script.len(),
        replayed(script, quiet, concurrency, order).outcomes.to_multiset() == outcomes_of(
            script,
        ).to_multiset(),
        replayed(script, quiet, concurrency, order).emissions.to_multiset() == emissions_of(
            outcomes_of(script),
            quiet,
        ).to_multiset(),
{
    let run = replayed(script, quiet, concurrency, order);
    lemma_permuted_multiset(outcomes_of(script), order);
    let lines = emissions_of(outcomes_of(script), quiet);
    lemma_permuted_multiset(lines, order);
    assert(run.emissions =~= permuted(lines, order));
}

/// Two runs over the same script write the same lines, each as often,
/// whatever their concurrency and whatever the order in which their probes
/// complete; and they reach the same overall result.
pub proof fn law_lines_ignore_concurrency(
    script: Seq<ExchangeView>,
    quiet: bool,
    first_concurrency: nat,
    first_order: Seq<usize>,
    second_concurrency: nat,
    second_order: Seq<usize>,
)
    requires
        is_permutation(first_order, script.len()),
        is_permutation(second_order, script.len()),
    ensures
        replayed(script, quiet, first_concurrency, first_order).emissions.to_multiset()
            == replayed(script, quiet, second_concurrency, second_order).emissions.to_multiset(),
        replayed(script, quiet, first_concurrency, first_order).success == replayed(
            script,
            quiet,
            second_concurrency,
            second_order,
        ).success,
{
    law_one_outcome_per_url(script, quiet, first_concurrency, first_order);
    law_one_outcome_per_url(script, quiet, second_concurrency, second_order);
    law_result_is_conjunction(script, quiet, first_concurrency, first_order);
    law_result_is_conjunction(script, quiet, second_concurrency, second_order);
}

/// The overall result of a run is true exactly when every scripted probe
/// is a success, in whatever order the probes complete.
pub proof fn law_result_is_conjunction(
    script: Seq<ExchangeView>,
    quiet: bool,
    concurrency: nat,
    order: Seq<usize>,
)
    requires
        is_permutation(order, script.len()),
    ensures
        replayed(script, quiet, concurrency, order).success == all_success(
            successes_of(outcomes_of(script)),
        ),
        replayed(script, quiet, concurrency, order).success <==> forall|i: int|
            0 <= i < script.len() ==> (#[trigger] script[i]).response == ResponseView::Status(200),
{
    let run = replayed(script, quiet, concurrency, order);
    let inputs = successes_of(outcomes_of(script));
    let seen = successes_of(run.outcomes);
    assert(seen =~= permuted(inputs, order));
    lemma_permuted_multiset(inputs, order);
    crate::aggregate::law_result_ignores_order(seen, inputs);
    if all_success(inputs) {
        assert forall|i: int| 0 <= i < script.len() implies (#[trigger] script[i]).response
            == ResponseView::Status(200) by {
            assert(inputs[i]);
        }
    } else {
        let i = choose|i: int| 0 <= i < inputs.len() && !inputs[i];
        assert(script[i].response != ResponseView::Status(200));
    }
}

/// With room for a single probe the probes complete in submission order.
pub proof fn law_single_window_keeps_order(order: Seq<usize>, count: nat)
    requires
        is_permutation(order, count),
        within_window(order, 1),
    ensures
        forall|k: int| 0 <= k < count ==> #[trigger] order[k] == k,
    decreases count,
{
    if count > 0 {
        let shorter = order.drop_last();
        assert forall|k: int| 0 <= k < count - 1 implies #[trigger] shorter[k] < count - 1 by {
            assert(order[k] < k + 1);
        }
        assert(is_permutation(shorter, (count - 1) as nat));
        assert(within_window(shorter, 1)) by {
            assert forall|k: int| 0 <= k < shorter.len() implies #[trigger] shorter[k] < k + 1 by {
                assert(order[k] < k + 1);
            }
        }
        law_single_window_keeps_order(shorter, (count - 1) as nat);
        assert forall|k: int| 0 <= k < count implies #[trigger] order[k] == k by {
            if k < count - 1 {
                assert(shorter[k] == k);
            } else {
                assert(order[k] < k + 1);
                assert forall|j: int| 0 <= j < k implies order[j] != k by {
                    assert(shorter[j] == j);
                }
                let last = order[k] as int;
                if last < k {
                    assert(shorter[last] == last);
                    assert(order[last] == order[k]);
                }
            }
        }
    }
}

} // verus!
