//! The runner's establishment sequence.

use deptyr::establish::{
    leader_decision, Establisher, LeaderStep, RunAction, RunError, StepOutcome,
};

#[test]
fn successful_run_performs_the_canonical_order() {
    let mut e = Establisher::new();
    let mut performed: Vec<RunAction> = Vec::new();
    for _ in 0..6 {
        let action = e.next_action().expect("a step should be pending");
        performed.push(action);
        assert_eq!(e.advance(StepOutcome::Succeeded), Ok(()));
    }
    // The final step replaces the process image; reaching its action is
    // the last thing the machine ever hands out.
    let action = e.next_action().expect("the replacement step should be pending");
    performed.push(action);
    assert_eq!(
        performed,
        vec![
            RunAction::AllocatePty,
            RunAction::ResolvePeerPath,
            RunAction::MakeSessionLeader,
            RunAction::WireStdin,
            RunAction::WireOutputs,
            RunAction::TransferPty,
            RunAction::ExecCommand,
        ]
    );
}

#[test]
fn a_returning_exec_is_fatal() {
    let mut e = Establisher::new();
    for _ in 0..6 {
        e.advance(StepOutcome::Succeeded).unwrap();
    }
    assert_eq!(e.next_action(), Some(RunAction::ExecCommand));
    // The replacement call came back: unreachable in practice, fatal.
    assert_eq!(e.advance(StepOutcome::Succeeded), Err(RunError::ExecReturned));
    assert_eq!(e.next_action(), None);
}

#[test]
fn a_failing_step_aborts_and_names_itself() {
    let mut e = Establisher::new();
    assert_eq!(
        e.advance(StepOutcome::Failed(13)),
        Err(RunError::Step(RunAction::AllocatePty, 13))
    );
    assert_eq!(e.next_action(), None);

    let mut e = Establisher::new();
    e.advance(StepOutcome::Succeeded).unwrap();
    e.advance(StepOutcome::Succeeded).unwrap();
    e.advance(StepOutcome::Succeeded).unwrap();
    assert_eq!(
        e.advance(StepOutcome::Failed(2)),
        Err(RunError::Step(RunAction::WireStdin, 2))
    );
}

#[test]
fn leader_step_is_idempotent() {
    assert_eq!(leader_decision(false), LeaderStep::StartSession);
    // Already leading its own group, as on a detached start: nothing to
    // do, and no error.
    assert_eq!(leader_decision(true), LeaderStep::AlreadyLeader);
}
