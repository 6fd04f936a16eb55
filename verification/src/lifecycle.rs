//! The life of the process, from its start to its exit.
//!
//! The program that owns the runtime drives a [`Lifecycle`]: it asks for the
//! next action, performs it, and reports how it went.

use crate::plan::{lemma_plan_shape, plan_of, startup_plan, Step, Variant};
use vstd::prelude::*;

verus! {

/// How a step that was handed out went.
#[derive(Clone, Copy, Debug, PartialEq, Eq, Structural)]
pub enum Outcome {
    /// The step returned without error.
    Completed,
    /// The step reported an error.
    Failed,
}

/// What the program is to do next.
#[derive(Clone, Copy, Debug, PartialEq, Eq, Structural)]
pub enum Action {
    /// Take this startup step and report its outcome.
    Perform(Step),
    /// The event loop has ended: leave normally.
    Finish,
    /// Startup failed: print a diagnostic and end the process with a
    /// non-zero status.
    Abort,
}

/// Where the process stands.
#[derive(Clone, Copy, Debug, PartialEq, Eq, Structural)]
pub enum Phase {
    /// The runtime is not up yet: registration or initialisation is still
    /// under way.
    NotStarted,
    /// The runtime was initialised without error; the step at hand is the
    /// run, which holds the process until the event loop ends.
    Running,
    /// The process is over. This phase is never left.
    Exited,
}

/// The state of one process.
#[derive(Clone, Copy, Debug, PartialEq, Eq, Structural)]
pub struct Lifecycle {
    /// The plugin set the program was built with.
    pub variant: Variant,
    /// How many steps of the plan have completed.
    pub completed: usize,
    /// Whether the step after those failed.
    pub failed: bool,
}

impl Lifecycle {
    /// Holds of every state that `new` and `record` produce: no more steps
    /// have completed than the plan has, and a failed step is one that comes
    /// before the run.
    pub open spec fn wf(self) -> bool {
        &&& self.completed <= plan_of(self.variant).len()
        &&& self.failed ==> self.completed + 1 < plan_of(self.variant).len()
    }

    /// The state at process start.
    pub open spec fn initial(variant: Variant) -> Lifecycle {
        Lifecycle { variant, completed: 0, failed: false }
    }

    /// Whether a step is still to be taken.
    pub open spec fn pending(self) -> bool {
        !self.failed && self.completed < plan_of(self.variant).len()
    }

    /// The action that belongs to a state.
    pub open spec fn action(self) -> Action {
        if self.failed {
            Action::Abort
        } else if self.completed < plan_of(self.variant).len() {
            Action::Perform(plan_of(self.variant)[self.completed as int])
        } else {
            Action::Finish
        }
    }

    /// The phase that a state is in: running while the run is the step at
    /// hand, which it is only once the initialisation has completed; over
    /// when a step has failed or the run has ended; not started otherwise.
    pub open spec fn phase(self) -> Phase {
        if !self.pending() {
            Phase::Exited
        } else if plan_of(self.variant)[self.completed as int] == Step::Run {
            Phase::Running
        } else {
            Phase::NotStarted
        }
    }

    /// The state that follows when the step at hand went as `outcome` says.
    /// Before the run, a completed step moves the plan on and a failed one
    /// ends it. The run has no failure of its own: it is left only by its
    /// completion, the end of the event loop. Once no step is pending, no
    /// report changes anything.
    pub open spec fn after(self, outcome: Outcome) -> Lifecycle {
        if !self.pending() {
            self
        } else {
            match outcome {
                Outcome::Completed => Lifecycle {
                    completed: (self.completed + 1) as usize,
                    ..self
                },
                Outcome::Failed => if self.phase() == Phase::Running {
                    self
                } else {
                    Lifecycle { failed: true, ..self }
                },
            }
        }
    }

    /// The state that follows a series of reports.
    pub open spec fn after_all(self, outcomes: Seq<Outcome>) -> Lifecycle
        decreases outcomes.len(),
    {
        if outcomes.len() == 0 {
            self
        } else {
            self.after(outcomes[0]).after_all(outcomes.skip(1))
        }
    }

    /// The state of a process that has just started.
    pub fn new(variant: Variant) -> (lifecycle: Lifecycle)
        ensures
            lifecycle == Lifecycle::initial(variant),
            lifecycle.wf(),
    {
        Lifecycle { variant, completed: 0, failed: false }
    }

    /// What the program is to do next. Asking changes nothing: until a report
    /// is recorded, the answer stays the same.
    pub fn next_action(&self) -> (action: Action)
        ensures
            action == self.action(),
    {
        let steps = startup_plan(self.variant);
        if self.failed {
            Action::Abort
        } else if self.completed < steps.len() {
            Action::Perform(steps[self.completed])
        } else {
            Action::Finish
        }
    }

    /// The phase the process is in.
    pub fn current_phase(&self) -> (phase: Phase)
        ensures
            phase == self.phase(),
    {
        match self.next_action() {
            Action::Perform(Step::Run) => Phase::Running,
            Action::Perform(_) => Phase::NotStarted,
            _ => Phase::Exited,
        }
    }

    /// Takes note of how the step at hand went. Before the run, a completed
    /// step moves the plan on and a failed one ends it; the run is left only
    /// by its completion. Once no step is pending, the report is ignored.
    pub fn record(&mut self, outcome: Outcome)
        ensures
            *final(self) == old(self).after(outcome),
            old(self).wf() ==> final(self).wf(),
    {
        proof {
            lemma_plan_shape(self.variant);
        }
        match (self.next_action(), outcome) {
            (Action::Perform(_), Outcome::Completed) => {
                self.completed = self.completed + 1;
            },
            (Action::Perform(Step::Run), Outcome::Failed) => {},
            (Action::Perform(_), Outcome::Failed) => {
                self.failed = true;
            },
            _ => {},
        }
    }
}

/// Reports keep a state well formed.
pub proof fn lemma_after_all_wf(state: Lifecycle, outcomes: Seq<Outcome>)
    requires
        state.wf(),
    ensures
        state.after_all(outcomes).wf(),
    decreases outcomes.len(),
{
    lemma_plan_shape(state.variant);
    if outcomes.len() > 0 {
        lemma_after_all_wf(state.after(outcomes[0]), outcomes.skip(1));
    }
}

/// While every step completes, the steps are handed out in the order of the
/// plan, each once, and the process finishes when the last has completed.
pub proof fn lemma_steps_follow_plan(variant: Variant, k: nat)
    requires
        k <= plan_of(variant).len(),
    ensures
        ({
            let state = Lifecycle::initial(variant).after_all(
                Seq::new(k, |i: int| Outcome::Completed),
            );
            &&& state.variant == variant
            &&& state.completed == k
            &&& !state.failed
            &&& k < plan_of(variant).len() ==> state.action() == Action::Perform(
                plan_of(variant)[k as int],
            )
            &&& k == plan_of(variant).len() ==> state.action() == Action::Finish
        }),
{
    lemma_completed_run(Lifecycle::initial(variant), k);
}

/// From a state with at least `k` steps left, `k` completions move `k` steps on.
proof fn lemma_completed_run(state: Lifecycle, k: nat)
    requires
        !state.failed,
        state.completed + k <= plan_of(state.variant).len(),
    ensures
        state.after_all(Seq::new(k, |i: int| Outcome::Completed)) == (Lifecycle {
            completed: (state.completed + k) as usize,
            ..state
        }),
    decreases k,
{
    let all = Seq::new(k, |i: int| Outcome::Completed);
    if k > 0 {
        let rest = Seq::new((k - 1) as nat, |i: int| Outcome::Completed);
        assert(all.skip(1) =~= rest);
        lemma_completed_run(state.after(all[0]), (k - 1) as nat);
    }
}

/// Once the process has exited, no report changes its state.
pub proof fn lemma_exit_is_final(state: Lifecycle, outcomes: Seq<Outcome>)
    requires
        state.phase() == Phase::Exited,
    ensures
        state.after_all(outcomes) == state,
    decreases outcomes.len(),
{
    if outcomes.len() > 0 {
        lemma_exit_is_final(state, outcomes.skip(1));
    }
}

/// When a step fails before the runtime is up, the process is told to abort
/// and, whatever is reported afterwards, is never told anything else: it is
/// over without ever having been running, no further step of the plan is
/// handed out, and none is counted as completed.
pub proof fn lemma_failure_aborts(state: Lifecycle, later: Seq<Outcome>)
    requires
        state.phase() == Phase::NotStarted,
    ensures
        state.after(Outcome::Failed).after_all(later).action() == Action::Abort,
        state.after(Outcome::Failed).after_all(later).phase() == Phase::Exited,
        state.after(Outcome::Failed).after_all(later).completed == state.completed,
{
    lemma_exit_is_final(state.after(Outcome::Failed), later);
}

/// A process whose initialisation fails never runs. While the initialisation
/// is the step at hand the process has not started; once it has failed, then
/// whatever is reported afterwards, the process is told to abort, the run is
/// not handed out, and the phase is not the running one.
pub proof fn lemma_failed_initialization_never_runs(state: Lifecycle, later: Seq<Outcome>)
    requires
        state.action() == Action::Perform(Step::Initialize),
    ensures
        state.phase() == Phase::NotStarted,
        state.after(Outcome::Failed).after_all(later).action() == Action::Abort,
        state.after(Outcome::Failed).after_all(later).action() != Action::Perform(Step::Run),
        state.after(Outcome::Failed).after_all(later).phase() != Phase::Running,
{
    lemma_failure_aborts(state, later);
}

/// The process is running only when every step before the run has
/// completed, the initialisation among them, and none has failed.
pub proof fn lemma_running_means_initialized(state: Lifecycle)
    requires
        state.wf(),
        state.phase() == Phase::Running,
    ensures
        !state.failed,
        state.completed + 1 == plan_of(state.variant).len(),
        plan_of(state.variant)[state.completed - 1] == Step::Initialize,
        state.action() == Action::Perform(Step::Run),
{
    lemma_plan_shape(state.variant);
}

/// A running process stays running, with the run as the step at hand, until
/// the run is reported as completed; then it is told to finish. It is never
/// told to abort.
pub proof fn lemma_running_until_completed(state: Lifecycle, reports: Seq<Outcome>)
    requires
        state.phase() == Phase::Running,
    ensures
        !reports.contains(Outcome::Completed) ==> state.after_all(reports) == state,
        reports.contains(Outcome::Completed) ==> state.after_all(reports).action()
            == Action::Finish,
        state.after_all(reports).action() != Action::Abort,
    decreases reports.len(),
{
    lemma_plan_shape(state.variant);
    if reports.len() > 0 {
        let rest = reports.skip(1);
        if reports[0] == Outcome::Completed {
            lemma_exit_is_final(state.after(Outcome::Completed), rest);
        } else {
            lemma_running_until_completed(state, rest);
            assert forall|o: Outcome| rest.contains(o) implies reports.contains(o) by {
                let i = choose|i: int| 0 <= i < rest.len() && rest[i] == o;
                assert(reports[i + 1] == o);
            }
            if reports.contains(Outcome::Completed) {
                let i = choose|i: int| 0 <= i < reports.len() && reports[i] == Outcome::Completed;
                assert(rest[i - 1] == Outcome::Completed);
            }
        }
    }
}

/// The phases come in order. Before the runtime is up, a completed step
/// leaves the process not started or brings it to running, and a failed one
/// ends it; a running process is left only by the completion of the run,
/// which ends it; and the exit is never left.
pub proof fn lemma_phase_order(state: Lifecycle, outcome: Outcome)
    requires
        state.wf(),
    ensures
        Lifecycle::initial(state.variant).phase() == Phase::NotStarted,
        state.phase() == Phase::NotStarted ==> (state.after(outcome).phase() == Phase::Exited
            <==> outcome == Outcome::Failed),
        state.phase() == Phase::Running ==> state.after(Outcome::Completed).phase()
            == Phase::Exited,
        state.phase() == Phase::Running ==> state.after(Outcome::Failed) == state,
        state.phase() == Phase::Exited ==> state.after(outcome) == state,
{
    lemma_plan_shape(state.variant);
}

} // verus!
