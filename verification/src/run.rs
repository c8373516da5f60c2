//! A run under one engine, taken stage by stage.
//!
//! The caller does the work of each stage and reports how it went; what to do
//! next is decided here. A run takes the stages of its engine's plan in order,
//! stops at the first that fails, and reports a score only when all are done.

use crate::engine::Engine;
use crate::plan::{plan, stages, Stage};
use vstd::prelude::*;

verus! {

/// How a stage went.
#[derive(Clone, Copy, Debug, PartialEq, Eq, Structural, Hash)]
pub enum Outcome {
    /// The stage is done.
    Done,
    /// The stage failed.
    Failed,
}

/// The type of the value that the guest's entry point returned.
#[derive(Clone, Copy, Debug, PartialEq, Eq, Structural, Hash)]
pub enum ValueKind {
    /// A 32-bit integer.
    I32,
    /// A 64-bit integer.
    I64,
    /// A 32-bit float.
    F32,
    /// A 64-bit float.
    F64,
}

/// How the check of the result goes: a score is a 32-bit float, and a value of
/// any other type fails the stage.
pub fn check_result(kind: ValueKind) -> (outcome: Outcome)
    ensures
        outcome == Outcome::Done <==> kind == ValueKind::F32,
{
    match kind {
        ValueKind::F32 => Outcome::Done,
        _ => Outcome::Failed,
    }
}

/// What the caller of a run does next.
#[derive(Clone, Copy, Debug, PartialEq, Eq, Structural, Hash)]
pub enum Action {
    /// Do the work of this stage, then record its outcome.
    Perform(Stage),
    /// Stop: this stage failed.
    Abort(Stage),
    /// Every stage is done: report the score.
    Report,
}

/// The state of a run: how many stages of the plan are done, and whether the
/// stage after them failed.
pub struct RunView {
    pub engine: Engine,
    pub completed: nat,
    pub failed: bool,
}

impl RunView {
    /// A run cannot be past the end of its plan, and a stage that failed is a
    /// stage of the plan.
    pub open spec fn wf(self) -> bool {
        &&& self.completed <= plan(self.engine).len()
        &&& self.failed ==> self.completed < plan(self.engine).len()
    }

    /// The run under `engine` of which nothing is done yet.
    pub open spec fn fresh(engine: Engine) -> RunView {
        RunView { engine, completed: 0, failed: false }
    }

    /// What the caller does next.
    pub open spec fn action(self) -> Action
        recommends
            self.wf(),
    {
        if self.failed {
            Action::Abort(plan(self.engine)[self.completed as int])
        } else if self.completed < plan(self.engine).len() {
            Action::Perform(plan(self.engine)[self.completed as int])
        } else {
            Action::Report
        }
    }

    /// The run after the stage that it asked for went as `outcome` says. A run
    /// that asked for no stage stays as it is.
    pub open spec fn after(self, outcome: Outcome) -> RunView {
        if self.failed || self.completed >= plan(self.engine).len() {
            self
        } else {
            match outcome {
                Outcome::Done => RunView { completed: self.completed + 1, ..self },
                Outcome::Failed => RunView { failed: true, ..self },
            }
        }
    }

    /// The run after the outcomes `outcomes`, the earliest first.
    pub open spec fn after_all(self, outcomes: Seq<Outcome>) -> RunView
        decreases outcomes.len(),
    {
        if outcomes.len() == 0 {
            self
        } else {
            self.after(outcomes[0]).after_all(outcomes.skip(1))
        }
    }
}

/// A run under one engine.
#[derive(Clone, Copy, Debug)]
pub struct Run {
    engine: Engine,
    completed: usize,
    failed: bool,
}

impl View for Run {
    type V = RunView;

    closed spec fn view(&self) -> RunView {
        RunView { engine: self.engine, completed: self.completed as nat, failed: self.failed }
    }
}

impl Run {
    #[verifier::type_invariant]
    spec fn inv(self) -> bool {
        self@.wf()
    }

    /// Starts a run under `engine`.
    pub fn new(engine: Engine) -> (run: Run)
        ensures
            run@ == RunView::fresh(engine),
    {
        Run { engine, completed: 0, failed: false }
    }

    /// The engine of this run.
    pub fn engine(&self) -> (engine: Engine)
        ensures
            engine == self@.engine,
    {
        self.engine
    }

    /// What the caller does next.
    pub fn action(&self) -> (action: Action)
        ensures
            self@.wf(),
            action == self@.action(),
    {
        proof {
            use_type_invariant(self);
        }
        let list = stages(self.engine);
        if self.failed {
            Action::Abort(list[self.completed])
        } else if self.completed < list.len() {
            Action::Perform(list[self.completed])
        } else {
            Action::Report
        }
    }

    /// Records how the stage that the run asked for went.
    pub fn record(self, outcome: Outcome) -> (next: Run)
        ensures
            self@.wf(),
            next@ == self@.after(outcome),
    {
        proof {
            use_type_invariant(self);
        }
        let list = stages(self.engine);
        if self.failed || self.completed >= list.len() {
            self
        } else {
            match outcome {
                Outcome::Done => Run { completed: self.completed + 1, ..self },
                Outcome::Failed => Run { failed: true, ..self },
            }
        }
    }
}

/// The number of outcomes `Done` that come before the first `Failed`.
pub open spec fn leading_done(outcomes: Seq<Outcome>) -> nat
    decreases outcomes.len(),
{
    if outcomes.len() == 0 || outcomes[0] == Outcome::Failed {
        0
    } else {
        1 + leading_done(outcomes.skip(1))
    }
}

proof fn lemma_after_all(run: RunView, outcomes: Seq<Outcome>)
    requires
        run.wf(),
    ensures
        ({
            let last = run.after_all(outcomes);
            let total = plan(run.engine).len();
            let reach = run.completed + leading_done(outcomes);
            &&& last.wf()
            &&& last.engine == run.engine
            &&& !(run.action() is Perform) ==> last == run
            &&& run.action() is Perform ==> {
                &&& last.completed == if reach < total { reach } else { total }
                &&& last.failed == (reach < total && leading_done(outcomes) < outcomes.len())
            }
        }),
    decreases outcomes.len(),
{
    if outcomes.len() > 0 {
        lemma_after_all(run.after(outcomes[0]), outcomes.skip(1));
    }
}

/// A run that has stopped, at a failed stage or at the end of its plan, stays
/// where it is whatever is recorded after that.
pub proof fn lemma_stopped_run_stays(run: RunView, outcomes: Seq<Outcome>)
    requires
        run.wf(),
        !(run.action() is Perform),
    ensures
        run.after_all(outcomes) == run,
{
    lemma_after_all(run, outcomes);
}

/// A run follows its engine's plan. It asks for the stages in the plan's
/// order, one for each outcome `Done`; it stops at the first stage whose
/// outcome is `Failed`, and no later outcome moves it from there; and it
/// reports a score exactly when every stage of the plan is done.
pub proof fn lemma_run_follows_plan(engine: Engine, outcomes: Seq<Outcome>)
    ensures
        ({
            let last = RunView::fresh(engine).after_all(outcomes);
            let done = leading_done(outcomes);
            let total = plan(engine).len();
            &&& last.wf()
            &&& last.engine == engine
            &&& last.action() == if done >= total {
                Action::Report
            } else if done < outcomes.len() {
                Action::Abort(plan(engine)[done as int])
            } else {
                Action::Perform(plan(engine)[done as int])
            }
        }),
{
    lemma_after_all(RunView::fresh(engine), outcomes);
}

} // verus!
