use app_bootstrap::lifecycle::{Action, Lifecycle, Outcome, Phase};
use app_bootstrap::plan::{startup_plan, Plugin, Step, Variant};

#[test]
fn a_new_lifecycle_has_done_nothing() {
    let lifecycle = Lifecycle::new(Variant::WithDialog);
    assert_eq!(
        lifecycle,
        Lifecycle {
            variant: Variant::WithDialog,
            completed: 0,
            failed: false
        }
    );
    assert_eq!(lifecycle.current_phase(), Phase::NotStarted);
}

#[test]
fn the_first_action_of_the_dialog_variant_is_its_plugin() {
    let lifecycle = Lifecycle::new(Variant::WithDialog);
    assert_eq!(
        lifecycle.next_action(),
        Action::Perform(Step::RegisterPlugin(Plugin::Dialog))
    );
}

#[test]
fn the_first_action_of_the_plain_variant_is_the_command_table() {
    let lifecycle = Lifecycle::new(Variant::Plain);
    assert_eq!(
        lifecycle.next_action(),
        Action::Perform(Step::InstallCommands)
    );
}

#[test]
fn steps_are_handed_out_in_plan_order_then_finish() {
    for variant in [Variant::Plain, Variant::WithDialog] {
        let mut lifecycle = Lifecycle::new(variant);
        let mut taken: Vec<Step> = Vec::new();
        loop {
            match lifecycle.next_action() {
                Action::Perform(step) => {
                    taken.push(step);
                    lifecycle.record(Outcome::Completed);
                }
                other => {
                    assert_eq!(other, Action::Finish);
                    break;
                }
            }
        }
        assert_eq!(taken, startup_plan(variant));
        assert_eq!(lifecycle.completed, taken.len());
        assert!(!lifecycle.failed);
        assert_eq!(lifecycle.current_phase(), Phase::Exited);
    }
}

#[test]
fn the_phases_of_a_clean_run() {
    let mut lifecycle = Lifecycle::new(Variant::WithDialog);
    assert_eq!(lifecycle.current_phase(), Phase::NotStarted);
    lifecycle.record(Outcome::Completed);
    assert_eq!(lifecycle.current_phase(), Phase::NotStarted);
    lifecycle.record(Outcome::Completed);
    assert_eq!(lifecycle.current_phase(), Phase::NotStarted);
    assert_eq!(lifecycle.next_action(), Action::Perform(Step::Initialize));
    lifecycle.record(Outcome::Completed);
    assert_eq!(lifecycle.current_phase(), Phase::Running);
    assert_eq!(lifecycle.next_action(), Action::Perform(Step::Run));
    lifecycle.record(Outcome::Completed);
    assert_eq!(lifecycle.current_phase(), Phase::Exited);
    assert_eq!(lifecycle.next_action(), Action::Finish);
}

#[test]
fn the_plain_variant_runs_after_two_steps() {
    let mut lifecycle = Lifecycle::new(Variant::Plain);
    lifecycle.record(Outcome::Completed);
    assert_eq!(lifecycle.current_phase(), Phase::NotStarted);
    assert_eq!(lifecycle.next_action(), Action::Perform(Step::Initialize));
    lifecycle.record(Outcome::Completed);
    assert_eq!(lifecycle.current_phase(), Phase::Running);
    assert_eq!(lifecycle.completed, 2);
}

#[test]
fn a_failed_initialization_aborts_without_ever_running() {
    let mut lifecycle = Lifecycle::new(Variant::WithDialog);
    lifecycle.record(Outcome::Completed);
    lifecycle.record(Outcome::Completed);
    assert_eq!(lifecycle.next_action(), Action::Perform(Step::Initialize));
    assert_eq!(lifecycle.current_phase(), Phase::NotStarted);
    lifecycle.record(Outcome::Failed);
    assert_eq!(lifecycle.next_action(), Action::Abort);
    assert_eq!(lifecycle.current_phase(), Phase::Exited);
    assert_eq!(
        lifecycle,
        Lifecycle {
            variant: Variant::WithDialog,
            completed: 2,
            failed: true
        }
    );
}

#[test]
fn a_failure_before_the_run_stops_the_plan_there() {
    for variant in [Variant::Plain, Variant::WithDialog] {
        let steps = startup_plan(variant).len();
        for failing in 0..steps - 1 {
            let mut lifecycle = Lifecycle::new(variant);
            for _ in 0..failing {
                lifecycle.record(Outcome::Completed);
                assert_ne!(lifecycle.current_phase(), Phase::Exited);
            }
            assert_eq!(lifecycle.current_phase(), Phase::NotStarted);
            lifecycle.record(Outcome::Failed);
            let stopped = lifecycle;
            assert_eq!(stopped.completed, failing);
            assert!(stopped.failed);
            for outcome in [Outcome::Completed, Outcome::Failed, Outcome::Completed] {
                lifecycle.record(outcome);
                assert_eq!(lifecycle, stopped);
                assert_eq!(lifecycle.next_action(), Action::Abort);
                assert_eq!(lifecycle.current_phase(), Phase::Exited);
            }
        }
    }
}

#[test]
fn a_finished_process_ignores_reports() {
    let mut lifecycle = Lifecycle::new(Variant::Plain);
    lifecycle.record(Outcome::Completed);
    lifecycle.record(Outcome::Completed);
    lifecycle.record(Outcome::Completed);
    let finished = lifecycle;
    assert_eq!(finished.next_action(), Action::Finish);
    lifecycle.record(Outcome::Failed);
    assert_eq!(lifecycle, finished);
    lifecycle.record(Outcome::Completed);
    assert_eq!(lifecycle, finished);
    assert_eq!(lifecycle.next_action(), Action::Finish);
}

#[test]
fn asking_for_the_action_changes_nothing() {
    let lifecycle = Lifecycle::new(Variant::WithDialog);
    let before = lifecycle;
    assert_eq!(lifecycle.next_action(), lifecycle.next_action());
    assert_eq!(lifecycle, before);
}

#[test]
fn a_state_past_its_plan_is_treated_as_finished() {
    let mut lifecycle = Lifecycle {
        variant: Variant::Plain,
        completed: 7,
        failed: false,
    };
    assert_eq!(lifecycle.next_action(), Action::Finish);
    assert_eq!(lifecycle.current_phase(), Phase::Exited);
    lifecycle.record(Outcome::Completed);
    assert_eq!(lifecycle.completed, 7);
}

#[test]
fn a_running_process_is_left_only_by_the_end_of_the_run() {
    for variant in [Variant::Plain, Variant::WithDialog] {
        let mut lifecycle = Lifecycle::new(variant);
        while lifecycle.current_phase() == Phase::NotStarted {
            lifecycle.record(Outcome::Completed);
        }
        assert_eq!(lifecycle.current_phase(), Phase::Running);
        let running = lifecycle;
        assert_eq!(running.completed, startup_plan(variant).len() - 1);
        for _ in 0..3 {
            lifecycle.record(Outcome::Failed);
            assert_eq!(lifecycle, running);
            assert_eq!(lifecycle.next_action(), Action::Perform(Step::Run));
            assert_eq!(lifecycle.current_phase(), Phase::Running);
        }
        lifecycle.record(Outcome::Completed);
        assert_eq!(lifecycle.next_action(), Action::Finish);
        assert_eq!(lifecycle.current_phase(), Phase::Exited);
        assert!(!lifecycle.failed);
    }
}

#[test]
fn the_run_is_never_handed_out_after_a_failed_initialization() {
    for variant in [Variant::Plain, Variant::WithDialog] {
        let mut lifecycle = Lifecycle::new(variant);
        while lifecycle.next_action() != Action::Perform(Step::Initialize) {
            lifecycle.record(Outcome::Completed);
        }
        lifecycle.record(Outcome::Failed);
        for outcome in [
            Outcome::Completed,
            Outcome::Completed,
            Outcome::Failed,
            Outcome::Completed,
        ] {
            assert_eq!(lifecycle.next_action(), Action::Abort);
            assert_ne!(lifecycle.current_phase(), Phase::Running);
            lifecycle.record(outcome);
        }
        assert_eq!(lifecycle.next_action(), Action::Abort);
        assert_eq!(lifecycle.current_phase(), Phase::Exited);
    }
}
