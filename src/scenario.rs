use vstd::prelude::*;

use crate::error::Error;

verus! {

/// A named scenario body.
pub struct Scenario<F> {
    /// The scenario's name; names need not be unique.
    pub name: String,
    /// The scenario's body.
    pub func: F,
}

/// Scenarios in the order they were registered.
pub struct ScenarioList<F> {
    scenarios: Vec<Scenario<F>>,
}

impl<F> View for ScenarioList<F> {
    type V = Seq<(Seq<char>, F)>;

    closed spec fn view(&self) -> Seq<(Seq<char>, F)> {
        self.scenarios@.map_values(|s: Scenario<F>| (s.name@, s.func))
    }
}

impl<F> ScenarioList<F> {
    /// No scenario registered.
    pub fn new() -> (r: Self)
        ensures
            r@ == Seq::<(Seq<char>, F)>::empty(),
    {
        let r = ScenarioList { scenarios: Vec::new() };
        assert(r@ =~= Seq::<(Seq<char>, F)>::empty());
        r
    }

    /// The list with one more scenario at its end.
    pub fn with_scenario(self, name: String, func: F) -> (r: Self)
        ensures
            r@ == self@.push((name@, func)),
    {
        let ghost entry = (name@, func);
        let ScenarioList { mut scenarios } = self;
        scenarios.push(Scenario { name, func });
        let r = ScenarioList { scenarios };
        assert(r@ =~= self@.push(entry));
        r
    }

    /// The number of scenarios.
    pub fn len(&self) -> (r: usize)
        ensures
            r == self@.len(),
    {
        self.scenarios.len()
    }

    /// The name of the scenario at position `i`.
    pub fn name(&self, i: usize) -> (r: &String)
        requires
            i < self@.len(),
        ensures
            r@ == self@[i as int].0,
    {
        &self.scenarios[i].name
    }

    /// The body of the scenario at position `i`.
    pub fn func(&self, i: usize) -> (r: &F)
        requires
            i < self@.len(),
        ensures
            *r == self@[i as int].1,
    {
        &self.scenarios[i].func
    }
}

/// What a run does next.
#[derive(Debug)]
pub enum RunStep {
    /// Invoke the scenario at this position and await its outcome.
    Invoke(usize),
    /// The run is over, with this result.
    Finished(Result<(), Error>),
}

/// The first step of a run over `total` scenarios.
pub open spec fn start_step(total: nat) -> RunStep {
    if total == 0 {
        RunStep::Finished(Ok(()))
    } else {
        RunStep::Invoke(0)
    }
}

/// The step after the scenario at `index` ended with `outcome`: a failure
/// ends the run with that failure; a success moves to the next scenario, or
/// ends the run with success after the last.
pub open spec fn next_step(total: nat, index: nat, outcome: Result<(), Error>) -> RunStep {
    match outcome {
        Err(e) => RunStep::Finished(Err(e)),
        Ok(()) => if index + 1 < total {
            RunStep::Invoke((index + 1) as usize)
        } else {
            RunStep::Finished(Ok(()))
        },
    }
}

/// The first step of a run over `total` scenarios.
pub fn run_start(total: usize) -> (r: RunStep)
    ensures
        r == start_step(total as nat),
{
    if total == 0 {
        RunStep::Finished(Ok(()))
    } else {
        RunStep::Invoke(0)
    }
}

/// The step after the scenario at `index` of `total` ended with `outcome`.
pub fn run_after(total: usize, index: usize, outcome: Result<(), Error>) -> (r: RunStep)
    requires
        index < total,
    ensures
        r == next_step(total as nat, index as nat, outcome),
{
    match outcome {
        Err(e) => RunStep::Finished(Err(e)),
        Ok(()) => if index + 1 < total {
            RunStep::Invoke(index + 1)
        } else {
            RunStep::Finished(Ok(()))
        },
    }
}

/// The positions invoked, in order, and the result, of a run over
/// `outcomes.len()` scenarios that is at `step`, where the scenario at
/// position `i` ends with `outcomes[i]`.
pub open spec fn run_trace(outcomes: Seq<Result<(), Error>>, step: RunStep) -> (
    Seq<nat>,
    Result<(), Error>,
)
    decreases
            (match step {
                RunStep::Invoke(i) => outcomes.len() - i,
                RunStep::Finished(_) => 0,
            }),
{
    match step {
        RunStep::Finished(r) => (Seq::empty(), r),
        RunStep::Invoke(i) => if i < outcomes.len() <= usize::MAX {
            let rest = run_trace(outcomes, next_step(outcomes.len(), i as nat, outcomes[i as int]));
            (seq![i as nat].add(rest.0), rest.1)
        } else {
            (Seq::empty(), Ok(()))
        },
    }
}

/// The positions `from`, `from + 1`, ..., `to - 1`.
pub open spec fn positions(from: nat, to: nat) -> Seq<nat> {
    Seq::new((to - from) as nat, |j: int| (from + j) as nat)
}

proof fn lemma_trace_from(outcomes: Seq<Result<(), Error>>, k: nat, i: nat)
    requires
        i <= k < outcomes.len() <= usize::MAX,
        outcomes[k as int] is Err,
        forall|j: int| 0 <= j < k ==> outcomes[j] is Ok,
    ensures
        run_trace(outcomes, RunStep::Invoke(i as usize)) == (positions(i, k + 1), outcomes[k as int]),
    decreases k - i,
{
    let n = outcomes.len();
    assert((i as usize) as nat == i);
    if i < k {
        lemma_trace_from(outcomes, k, i + 1);
        assert(next_step(n, i, outcomes[i as int]) == RunStep::Invoke((i + 1) as usize));
        assert(seq![i].add(positions(i + 1, k + 1)) =~= positions(i, k + 1));
    } else {
        let st = next_step(n, i, outcomes[i as int]);
        assert(st == RunStep::Finished(outcomes[k as int]));
        assert(run_trace(outcomes, st) == (Seq::<nat>::empty(), outcomes[k as int]));
        assert(seq![i].add(Seq::<nat>::empty()) =~= positions(i, k + 1));
    }
}

proof fn lemma_trace_success(outcomes: Seq<Result<(), Error>>, i: nat)
    requires
        i < outcomes.len() <= usize::MAX,
        forall|j: int| 0 <= j < outcomes.len() ==> outcomes[j] is Ok,
    ensures
        run_trace(outcomes, RunStep::Invoke(i as usize)) == (
            positions(i, outcomes.len()),
            Ok::<(), Error>(()),
        ),
    decreases outcomes.len() - i,
{
    let n = outcomes.len();
    assert((i as usize) as nat == i);
    let st = next_step(n, i, outcomes[i as int]);
    if i + 1 < n {
        lemma_trace_success(outcomes, i + 1);
        assert(st == RunStep::Invoke((i + 1) as usize));
        assert(seq![i].add(positions(i + 1, n)) =~= positions(i, n));
    } else {
        assert(st == RunStep::Finished(Ok(())));
        assert(run_trace(outcomes, st) == (Seq::<nat>::empty(), Ok::<(), Error>(())));
        assert(seq![i].add(Seq::<nat>::empty()) =~= positions(i, n));
    }
}

/// Fail-fast: when the scenario at position `k` is the first to fail, a run
/// invokes exactly the scenarios at positions `0..=k`, in registration
/// order, and ends with that scenario's error; no later scenario runs.
pub proof fn run_stops_at_first_failure(outcomes: Seq<Result<(), Error>>, k: nat)
    requires
        k < outcomes.len() <= usize::MAX,
        outcomes[k as int] is Err,
        forall|j: int| 0 <= j < k ==> outcomes[j] is Ok,
    ensures
        run_trace(outcomes, start_step(outcomes.len())) == (positions(0, k + 1), outcomes[k as int]),
{
    lemma_trace_from(outcomes, k, 0);
}

/// When every scenario succeeds, a run invokes each of them once, in
/// registration order, and ends with success.
pub proof fn run_completes_when_all_succeed(outcomes: Seq<Result<(), Error>>)
    requires
        outcomes.len() <= usize::MAX,
        forall|j: int| 0 <= j < outcomes.len() ==> outcomes[j] is Ok,
    ensures
        run_trace(outcomes, start_step(outcomes.len())) == (
            positions(0, outcomes.len()),
            Ok::<(), Error>(()),
        ),
{
    if outcomes.len() > 0 {
        lemma_trace_success(outcomes, 0);
    } else {
        assert(positions(0, 0) =~= Seq::<nat>::empty());
    }
}

} // verus!
