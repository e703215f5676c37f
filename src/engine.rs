//! The task-plan engine: steps run in order, one result per step, and a
//! failing step never stops the run.
use vstd::prelude::*;
use crate::types::{BrowserAction, TaskPlan, TaskResult, TaskStep};

verus! {

/// Pause between two steps, so that the page settles.
pub const STEP_SETTLE_MS: u64 = 500;

/// The result recorded for `step` given what its action returned.
pub open spec fn result_for(step: TaskStep, outcome: Result<String, String>) -> TaskResult {
    match outcome {
        Ok(output) => TaskResult {
            step_id: step.id,
            success: true,
            output: Some(output),
            error: None,
        },
        Err(error) => TaskResult {
            step_id: step.id,
            success: false,
            output: None,
            error: Some(error),
        },
    }
}

/// The results of the first `outcomes.len()` steps, one per step, in step order.
pub open spec fn results_for(steps: Seq<TaskStep>, outcomes: Seq<Result<String, String>>) -> Seq<
    TaskResult,
> {
    Seq::new(outcomes.len(), |i: int| result_for(steps[i], outcomes[i]))
}

/// Records a step's outcome as its result.
pub fn step_result(step: &TaskStep, outcome: Result<String, String>) -> (r: TaskResult)
    ensures
        r == result_for(*step, outcome),
{
    match outcome {
        Ok(output) => TaskResult {
            step_id: step.id.clone(),
            success: true,
            output: Some(output),
            error: None,
        },
        Err(error) => TaskResult {
            step_id: step.id.clone(),
            success: false,
            output: None,
            error: Some(error),
        },
    }
}

/// One run of a plan: the steps done so far and their results.
pub struct TaskRun {
    plan: TaskPlan,
    results: Vec<TaskResult>,
    outcomes: Ghost<Seq<Result<String, String>>>,
}

impl TaskRun {
    pub closed spec fn steps(&self) -> Seq<TaskStep> {
        self.plan.steps@
    }

    /// What the actions of the steps done so far returned, in order.
    pub closed spec fn outcomes(&self) -> Seq<Result<String, String>> {
        self.outcomes@
    }

    pub closed spec fn wf(&self) -> bool {
        &&& self.outcomes@.len() <= self.plan.steps@.len()
        &&& self.results@ == results_for(self.plan.steps@, self.outcomes@)
    }

    /// Index of the next step to run.
    pub open spec fn position(&self) -> int {
        self.outcomes().len() as int
    }

    pub open spec fn finished(&self) -> bool {
        self.position() == self.steps().len()
    }

    pub fn new(plan: TaskPlan) -> (r: TaskRun)
        ensures
            r.wf(),
            r.steps() == plan.steps@,
            r.outcomes() == Seq::<Result<String, String>>::empty(),
    {
        let r = TaskRun { plan, results: Vec::new(), outcomes: Ghost(Seq::empty()) };
        assert(r.results@ =~= results_for(r.plan.steps@, r.outcomes@));
        r
    }

    pub fn is_finished(&self) -> (r: bool)
        requires
            self.wf(),
        ensures
            r == self.finished(),
    {
        self.results.len() == self.plan.steps.len()
    }

    /// The action of the next step, or `None` once every step has run.
    pub fn next_action(&self) -> (r: Option<&BrowserAction>)
        requires
            self.wf(),
        ensures
            match r {
                Some(a) => !self.finished() && *a == self.steps()[self.position()].action,
                None => self.finished(),
            },
    {
        if self.results.len() < self.plan.steps.len() {
            Some(&self.plan.steps[self.results.len()].action)
        } else {
            None
        }
    }

    /// Records what the next step's action returned, success or failure alike.
    pub fn record(&mut self, outcome: Result<String, String>)
        requires
            old(self).wf(),
            !old(self).finished(),
        ensures
            final(self).wf(),
            final(self).steps() == old(self).steps(),
            final(self).outcomes() == old(self).outcomes().push(outcome),
    {
        let i = self.results.len();
        let ghost outcome_g = outcome;
        let r = step_result(&self.plan.steps[i], outcome);
        self.results.push(r);
        self.outcomes = Ghost(self.outcomes@.push(outcome_g));
        assert(self.results@ =~= results_for(self.plan.steps@, self.outcomes@));
    }

    /// The results recorded so far, one per step run, in step order.
    pub fn into_results(self) -> (r: Vec<TaskResult>)
        requires
            self.wf(),
        ensures
            r@ == results_for(self.steps(), self.outcomes()),
    {
        self.results
    }
}

/// Runs a plan whose step outcomes are already known, in step order.
pub fn collect_results(plan: TaskPlan, outcomes: Vec<Result<String, String>>) -> (r: Vec<TaskResult>)
    requires
        outcomes@.len() == plan.steps@.len(),
    ensures
        r@ == results_for(plan.steps@, outcomes@),
{
    let ghost steps = plan.steps@;
    let mut run = TaskRun::new(plan);
    let ghost all = outcomes@;
    let mut rest = outcomes;
    while !run.is_finished()
        invariant
            run.wf(),
            run.steps() == steps,
            all.len() == steps.len(),
            run.position() + rest@.len() == steps.len(),
            run.outcomes() == all.take(run.position()),
            rest@ == all.skip(run.position()),
        decreases rest@.len(),
    {
        let o = rest.remove(0);
        proof {
            assert(all.take(run.position() + 1) =~= all.take(run.position()).push(o));
            assert(rest@ =~= all.skip(run.position() + 1));
        }
        run.record(o);
    }
    assert(all.take(all.len() as int) =~= all);
    assert(all.skip(0) =~= all);
    run.into_results()
}

/// A run of `n` steps gives `n` results, the i-th for the i-th step, whatever
/// each step returned.
pub proof fn lemma_one_result_per_step(
    steps: Seq<TaskStep>,
    outcomes: Seq<Result<String, String>>,
)
    requires
        outcomes.len() == steps.len(),
    ensures
        results_for(steps, outcomes).len() == steps.len(),
        forall|i: int|
            0 <= i < steps.len() ==> (#[trigger] results_for(steps, outcomes)[i]).step_id
                == steps[i].id && results_for(steps, outcomes)[i].success == (outcomes[i] is Ok),
{
}

} // verus!
