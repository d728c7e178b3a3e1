use sealtask::batch::{OutcomeStatus, TaskSummary};
use sealtask::checkpoint::{OperationKind, StartedMetadata};
use sealtask::error::{CliError, PublicError};
use sealtask::operation::{operation_start, operation_step, OperationAction, OperationEvent, OperationState};
use sealtask::schedule::TaskMutationPlan;

fn plan(would_change: bool) -> TaskMutationPlan {
    TaskMutationPlan { expected_updated_at: Some(5), change_commitment: "C".repeat(43), would_change }
}

fn step(s: OperationState, ev: OperationEvent) -> (OperationState, OperationAction) {
    operation_step(s, ev)
}

#[test]
fn dry_runs_prepare_without_recording_or_sending() {
    let s = operation_start(0, "op".to_string(), OperationKind::TaskUpdate, 7, Some(9), true, true, None);
    let (s, a) = step(s, OperationEvent::Begin);
    assert!(matches!(a, OperationAction::CheckSignal));
    let (s, a) = step(s, OperationEvent::SignalChecked(Ok(false)));
    assert!(matches!(a, OperationAction::CheckSignal));
    let (s, a) = step(s, OperationEvent::SignalChecked(Ok(false)));
    assert!(matches!(a, OperationAction::Prepare { original_update_revision: None }));
    let (_, a) = step(s, OperationEvent::Prepared(Ok(plan(true))));
    match a {
        OperationAction::Finish(o) => assert_eq!(o.status, OutcomeStatus::Planned),
        other => panic!("unexpected {other:?}"),
    }
}

#[test]
fn a_fresh_operation_records_its_start_and_plan_before_sending() {
    let s = operation_start(1, "op".to_string(), OperationKind::TaskUpdate, 7, Some(9), false, true, None);
    let (s, _) = step(s, OperationEvent::Begin);
    let (s, a) = step(s, OperationEvent::SignalChecked(Ok(false)));
    assert!(matches!(a, OperationAction::RecordStarted(StartedMetadata { expected_updated_at: None, change_commitment: None, .. })));
    let (s, _) = step(s, OperationEvent::CheckpointWritten(Ok(())));
    let (s, _) = step(s, OperationEvent::SignalChecked(Ok(false)));
    let (s, _) = step(s, OperationEvent::Prepared(Ok(plan(true))));
    let (s, a) = step(s, OperationEvent::SignalChecked(Ok(false)));
    assert!(matches!(a, OperationAction::RecordStarted(StartedMetadata { expected_updated_at: Some(5), .. })));
    let (s, a) = step(s, OperationEvent::CheckpointWritten(Ok(())));
    assert!(matches!(a, OperationAction::CheckSignal));
    let (s, a) = step(s, OperationEvent::SignalChecked(Ok(false)));
    assert!(matches!(a, OperationAction::Execute { mutation_in_flight: true }));
    let task = TaskSummary { id: 9, reference_number: Some(42), reference: None, updated_at: 6 };
    let (s, a) = step(s, OperationEvent::Executed(Ok(task)));
    assert!(matches!(a, OperationAction::RecordSucceeded { task_id: 9, updated_at: 6 }));
    let (_, a) = step(s, OperationEvent::CheckpointWritten(Ok(())));
    match a {
        OperationAction::Finish(o) => {
            assert_eq!(o.status, OutcomeStatus::Succeeded);
            assert_eq!(o.task_reference_number, Some(42));
            assert!(!o.resumed);
        }
        other => panic!("unexpected {other:?}"),
    }
}

#[test]
fn only_definitive_execution_failures_are_recorded() {
    let executing = |code: &str| {
        let s = operation_start(2, "op".to_string(), OperationKind::TaskCreate, 7, None, false, true, None);
        let (s, _) = step(s, OperationEvent::Begin);
        let (s, _) = step(s, OperationEvent::SignalChecked(Ok(false)));
        let (s, _) = step(s, OperationEvent::CheckpointWritten(Ok(())));
        let (s, _) = step(s, OperationEvent::SignalChecked(Ok(false)));
        let (s, _) = step(s, OperationEvent::Prepared(Ok(TaskMutationPlan { expected_updated_at: None, change_commitment: "C".repeat(43), would_change: true })));
        let (s, _) = step(s, OperationEvent::SignalChecked(Ok(false)));
        let (s, _) = step(s, OperationEvent::CheckpointWritten(Ok(())));
        let (s, _) = step(s, OperationEvent::SignalChecked(Ok(false)));
        step(s, OperationEvent::Executed(Err(PublicError::with_code(code, "x".to_string()))))
    };
    let (s, a) = executing("validation");
    assert!(matches!(a, OperationAction::RecordFailed));
    let (_, a) = step(s, OperationEvent::CheckpointWritten(Ok(())));
    assert!(matches!(a, OperationAction::Finish(o) if o.status == OutcomeStatus::Failed && o.fatal_exit_code.is_none()));
    let (_, a) = executing("request_timeout");
    assert!(matches!(a, OperationAction::Finish(o) if o.status == OutcomeStatus::Failed));
}

#[test]
fn signals_and_checkpoint_failures_end_the_operation() {
    let s = operation_start(3, "op".to_string(), OperationKind::TaskCreate, 7, None, false, true, None);
    let (s, _) = step(s, OperationEvent::Begin);
    let (_, a) = step(s, OperationEvent::SignalChecked(Ok(true)));
    assert!(matches!(a, OperationAction::Finish(o) if o.status == OutcomeStatus::Interrupted && o.fatal_exit_code == Some(130)));

    let s = operation_start(3, "op".to_string(), OperationKind::TaskCreate, 7, None, false, true, None);
    let (s, _) = step(s, OperationEvent::Begin);
    let (s, _) = step(s, OperationEvent::SignalChecked(Ok(false)));
    let (_, a) = step(s, OperationEvent::CheckpointWritten(Err(CliError::checkpoint_io("disk full".to_string()))));
    assert!(matches!(a, OperationAction::Finish(o) if o.fatal_exit_code == Some(4)));
}
