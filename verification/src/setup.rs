//! Running a setup: the operations are carried out one after the other, each
//! only when the one before it has completed, and the failure of a required
//! operation ends the setup for good.

use crate::broker::{step_views, OnFailure, SetupStep, SetupStepView};
use vstd::prelude::*;

verus! {

/// How far a setup has come.
pub struct SetupRunView {
    /// The operations of the setup, in order.
    pub plan: Seq<SetupStepView>,
    /// How many of them have completed.
    pub completed: nat,
    /// Whether a required operation has failed.
    pub aborted: bool,
}

/// A setup of which nothing has been carried out yet.
pub open spec fn fresh(plan: Seq<SetupStepView>) -> SetupRunView {
    SetupRunView { plan, completed: 0, aborted: false }
}

/// The operation to carry out now, if there is one: the first that has not
/// completed, unless the setup was given up.
pub open spec fn pending(run: SetupRunView) -> Option<SetupStepView> {
    if !run.aborted && run.completed < run.plan.len() {
        Some(run.plan[run.completed as int])
    } else {
        None
    }
}

/// Every operation has completed.
pub open spec fn ready(run: SetupRunView) -> bool {
    !run.aborted && run.completed == run.plan.len()
}

/// The setup after the pending operation has ended, successfully or not.
///
/// Success moves on to the next operation, and so does a failure that the
/// operation allows to be passed over. Any other failure gives the setup up.
/// Where nothing is pending, nothing changes.
pub open spec fn reported(run: SetupRunView, succeeded: bool) -> SetupRunView {
    match pending(run) {
        None => run,
        Some(step) => if succeeded || step.on_failure == OnFailure::Ignore {
            SetupRunView { completed: run.completed + 1, ..run }
        } else {
            SetupRunView { aborted: true, ..run }
        },
    }
}

/// The setup after the outcomes `outcomes` have been reported in turn.
pub open spec fn reported_all(run: SetupRunView, outcomes: Seq<bool>) -> SetupRunView
    decreases outcomes.len(),
{
    if outcomes.len() == 0 {
        run
    } else {
        reported_all(reported(run, outcomes[0]), outcomes.drop_first())
    }
}

/// A setup in progress.
pub struct SetupRun {
    steps: Vec<SetupStep>,
    done: usize,
    aborted: bool,
}

impl View for SetupRun {
    type V = SetupRunView;

    closed spec fn view(&self) -> SetupRunView {
        SetupRunView {
            plan: step_views(self.steps@),
            completed: self.done as nat,
            aborted: self.aborted,
        }
    }
}

impl SetupRun {
    #[verifier::type_invariant]
    spec fn well_formed(self) -> bool {
        self.done <= self.steps.len()
    }

    /// Starts the setup that consists of `steps`.
    pub fn new(steps: Vec<SetupStep>) -> (run: SetupRun)
        ensures
            run@ == fresh(step_views(steps@)),
    {
        SetupRun { steps, done: 0, aborted: false }
    }

    /// The operation to carry out now, if there is one.
    pub fn current(&self) -> (step: Option<&SetupStep>)
        ensures
            match step {
                Some(step) => pending(self@) == Some(step@),
                None => pending(self@) is None,
            },
    {
        proof {
            use_type_invariant(self);
        }
        if !self.aborted && self.done < self.steps.len() {
            Some(&self.steps[self.done])
        } else {
            None
        }
    }

    /// Records how the current operation ended.
    pub fn report(&mut self, succeeded: bool)
        ensures
            final(self)@ == reported(old(self)@, succeeded),
    {
        proof {
            use_type_invariant(&*self);
        }
        if !self.aborted && self.done < self.steps.len() {
            let passed = succeeded || match self.steps[self.done].on_failure {
                OnFailure::Ignore => true,
                OnFailure::Abort => false,
            };
            if passed {
                self.done = self.done + 1;
            } else {
                self.aborted = true;
            }
        }
    }

    /// Whether every operation has completed.
    pub fn is_ready(&self) -> (yes: bool)
        ensures
            yes == ready(self@),
    {
        !self.aborted && self.done == self.steps.len()
    }

    /// Whether the setup was given up.
    pub fn is_aborted(&self) -> (yes: bool)
        ensures
            yes == self@.aborted,
    {
        self.aborted
    }
}

/// A setup that was given up stays so whatever is reported: no operation is
/// pending, none is tried again, and none of the remaining ones is started.
pub proof fn lemma_abort_is_final(run: SetupRunView, outcomes: Seq<bool>)
    requires
        run.aborted,
    ensures
        pending(run) is None,
        reported_all(run, outcomes) == run,
    decreases outcomes.len(),
{
    if outcomes.len() > 0 {
        lemma_abort_is_final(run, outcomes.drop_first());
    }
}

/// While every operation succeeds, the operations become pending in the
/// order of the plan, one for each report, and the setup is ready exactly
/// when as many successes were reported as the plan has operations.
pub proof fn lemma_success_follows_plan(plan: Seq<SetupStepView>, successes: Seq<bool>)
    requires
        forall|i: int| 0 <= i < successes.len() ==> successes[i],
        successes.len() <= plan.len(),
    ensures
        reported_all(fresh(plan), successes) == (SetupRunView {
            plan,
            completed: successes.len(),
            aborted: false,
        }),
        ready(reported_all(fresh(plan), successes)) <==> successes.len() == plan.len(),
{
    lemma_success_advances(fresh(plan), successes);
}

proof fn lemma_success_advances(run: SetupRunView, successes: Seq<bool>)
    requires
        !run.aborted,
        forall|i: int| 0 <= i < successes.len() ==> successes[i],
        run.completed + successes.len() <= run.plan.len(),
    ensures
        reported_all(run, successes) == (SetupRunView {
            completed: run.completed + successes.len(),
            ..run
        }),
    decreases successes.len(),
{
    if successes.len() > 0 {
        assert(successes[0]);
        lemma_success_advances(reported(run, true), successes.drop_first());
    }
}

} // verus!
