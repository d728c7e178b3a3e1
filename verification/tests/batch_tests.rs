use sealtask::batch::{summary_record, BatchSummary};
use sealtask::batch::{batch_run_preflight, interrupted_summary, preparation_interruption, OutputFormat};
use sealtask::batch::{
    classify_interrupted_credential_refresh, ensure_checkpoint_kind, is_false, operation_name, outcome_status_name,
    CredentialRefreshWait,
};
use sealtask::schedule::{interrupt_action, resolved_from_metadata, InterruptAction};
use sealtask::batch::{
    emit_outcome, emit_summary, execution_failure_is_definitive, forced_interruption_message, merge_fatal_exit_code,
    resume_prepare_safety_error, sanitized_operation_error, OperationOutcome, OutcomeCounters, OutcomeStatus,
};
use sealtask::checkpoint::{OperationKind, StartedMetadata};
use sealtask::error::{CliError, PublicError};
use sealtask::schedule::{
    ensure_resume_plan_matches, next_schedulable, reconcile_prepared_plan, PendingItem, ResumeDecision,
    RunningOperation, SchedulerState, TaskMutationPlan,
};

fn plan(expected_updated_at: Option<i128>, change_commitment: &str, would_change: bool) -> TaskMutationPlan {
    TaskMutationPlan { expected_updated_at, change_commitment: change_commitment.to_string(), would_change }
}

#[test]
fn forced_interruption_only_mentions_a_checkpoint_when_one_exists() {
    let without_checkpoint = forced_interruption_message(false, true);
    assert!(!without_checkpoint.contains("checkpoint"));
    assert!(without_checkpoint.contains("inspect the affected resources"));

    let with_checkpoint = forced_interruption_message(true, true);
    assert!(with_checkpoint.contains("resume from the checkpoint"));
}

#[test]
fn definitive_failure_classification_preserves_ambiguous_started_state() {
    assert!(!execution_failure_is_definitive(&PublicError::with_code("conflict", "revision conflict".to_string())));
    assert!(!execution_failure_is_definitive(&PublicError::request_timeout("ambiguous timeout".to_string())));
    assert!(!execution_failure_is_definitive(&PublicError::with_code("outcome_ambiguous", "task update: response lost".to_string())));
    assert!(execution_failure_is_definitive(&PublicError::validation("bad".to_string())));
}

#[test]
fn resume_revision_conflict_is_a_typed_checkpoint_safety_failure() {
    let error = resume_prepare_safety_error(
        OperationKind::TaskUpdate,
        Some(1_700_000_000_000_000_000),
        &PublicError::with_code("conflict", "task changed".to_string()),
    )
    .expect("checkpoint safety error");
    assert_eq!(error.code(), "checkpoint_conflict");
    assert_eq!(error.exit_code(), 4);

    assert!(resume_prepare_safety_error(
        OperationKind::TaskUpdate,
        None,
        &PublicError::with_code("conflict", "fresh preparation conflict".to_string()),
    )
    .is_none());
}

#[test]
fn operation_error_records_do_not_echo_selector_plaintext() {
    let canary = "selector-plaintext-canary";
    let outcome = OperationOutcome::failed_runtime_parts(
        0,
        "op-1".to_string(),
        OperationKind::TaskUpdate,
        None,
        None,
        PublicError::validation(format!("no task matched {canary}")),
    );
    let error = outcome.error.as_ref().expect("error");
    assert!(!error.message.contains(canary));
    assert!(!error.code.contains(canary));
    assert_eq!(error.code, "validation");
    assert_eq!(error.message, "operation input or target is invalid");
}

#[test]
fn forced_in_flight_mutation_retains_identity_and_is_counted_as_ambiguous() {
    let project_id: u128 = 0x0197f52a_89f0_7b50_8000_000000000001;
    let task_id: u128 = 0x0197f52a_89f0_7b50_8000_000000000002;
    let mut operation = RunningOperation::new(Some((project_id, task_id)), 4, "stable-operation-id".to_string(), OperationKind::TaskUpdate, project_id, Some(task_id));
    operation.progress.mark_mutation_in_flight();

    let outcome = operation.forced_outcome(false);
    let mut counters = OutcomeCounters::new();
    counters.record(&outcome);

    assert_eq!(outcome.index, 4);
    assert_eq!(outcome.operation_id, "stable-operation-id");
    assert_eq!(outcome.project_id, Some(project_id));
    assert_eq!(outcome.task_id, Some(task_id));
    assert!(outcome.status == OutcomeStatus::Interrupted);
    assert_eq!(outcome.error.as_ref().map(|error| error.code.as_str()), Some("outcome_ambiguous"));
    assert_eq!(counters.interrupted, 1);
    assert_eq!(counters.processed(), 1);
}

#[test]
fn forced_mutation_with_a_received_response_stays_ambiguous_if_its_result_is_lost() {
    let mut operation = RunningOperation::new(None, 0, "response-received".to_string(), OperationKind::TaskCreate, 9, None);
    operation.progress.mark_mutation_in_flight();
    operation.progress.mark_response_received();

    let outcome = operation.forced_outcome(false);

    assert_eq!(outcome.error.as_ref().map(|error| error.code.as_str()), Some("outcome_ambiguous"));
}

#[test]
fn forced_preparation_with_a_terminal_refresh_does_not_claim_session_ambiguity() {
    let mut operation = RunningOperation::new(None, 2, "credential-refresh".to_string(), OperationKind::TaskCreate, 9, None);
    operation.credential_refresh_interrupted = true;

    let outcome = operation.forced_outcome(false);

    assert!(outcome.status == OutcomeStatus::Interrupted);
    assert!(outcome.error.is_none());
    assert_eq!(outcome.fatal_exit_code, Some(130));
}

#[test]
fn scheduler_skips_busy_task_targets_but_keeps_unrelated_work_moving() {
    let project: u128 = 0x11;
    let task: u128 = 0x22;
    let queue = vec![PendingItem::Mutation(Some((project, task))), PendingItem::Immediate];
    assert_eq!(next_schedulable(&queue, &vec![(project, task)]), Some(1));
    assert_eq!(next_schedulable(&queue, &Vec::new()), Some(0));
    assert_eq!(next_schedulable(&vec![PendingItem::Mutation(Some((project, task)))], &vec![(project, task)]), None);
}

#[test]
fn resume_update_never_rebases_or_accepts_a_changed_commitment_as_a_noop() {
    let original_revision: i128 = 1_700_000_000_000_000_000;
    let moved_revision = original_revision + 1_000_000_000;
    let revision_error = ensure_resume_plan_matches(original_revision, Some("original"), &plan(Some(moved_revision), "original", false))
        .expect_err("moved revision must fail closed");
    assert_eq!(revision_error.code(), "checkpoint_conflict");
    assert_eq!(revision_error.exit_code(), 4);

    let commitment_error = ensure_resume_plan_matches(original_revision, Some("original"), &plan(Some(original_revision), "changed", false))
        .expect_err("changed commitment must fail before no-op reconciliation");
    assert_eq!(commitment_error.code(), "checkpoint_conflict");
    assert_eq!(commitment_error.exit_code(), 4);
}

#[test]
fn resume_update_accepts_only_the_exact_original_plan() {
    let original_revision: i128 = 1_700_000_000_000_000_000;
    assert!(matches!(
        ensure_resume_plan_matches(original_revision, Some("original"), &plan(Some(original_revision), "original", true)),
        Ok(ResumeDecision::Execute)
    ));
    assert!(matches!(
        ensure_resume_plan_matches(original_revision, Some("original"), &plan(Some(original_revision), "original", false)),
        Ok(ResumeDecision::AlreadyApplied)
    ));
}

#[test]
fn fatal_exit_codes_let_checkpoint_failures_win() {
    assert_eq!(merge_fatal_exit_code(None, Some(130)), Some(130));
    assert_eq!(merge_fatal_exit_code(Some(130), Some(1)), Some(130));
    assert_eq!(merge_fatal_exit_code(Some(130), Some(4)), Some(4));
    assert_eq!(merge_fatal_exit_code(Some(4), Some(130)), Some(4));
    assert_eq!(merge_fatal_exit_code(Some(1), None), Some(1));
    assert_eq!(merge_fatal_exit_code(None, None), None);
}

#[test]
fn sanitized_messages_cover_every_code() {
    assert_eq!(sanitized_operation_error("transport_timeout"), "operation timed out");
    assert_eq!(sanitized_operation_error("checkpoint_io"), "checkpoint durability operation failed");
    assert_eq!(sanitized_operation_error("something-new"), "operation failed");
}

#[test]
fn summary_line_reports_every_total() {
    let mut state = SchedulerState::new(false);
    let ok = OperationOutcome::planned(0, "a".to_string(), OperationKind::TaskCreate, 1, None);
    state.record_scheduled_outcome(None, &ok, true, Ok(()));
    let summary = state.summary(3);
    assert_eq!(
        emit_summary(&summary),
        "summary  total=3 succeeded=0 failed=0 skipped=0 planned=1 not-run=2 interrupted-count=0 interrupted=false"
    );
}

#[test]
fn batch_results_follow_interruptions_then_checkpoint_failures_then_failures() {
    let mut state = SchedulerState::new(false);
    state.activate((1, 2));
    let failed = OperationOutcome::failed_runtime_parts(0, "a".to_string(), OperationKind::TaskUpdate, Some(1), Some(2), PublicError::validation("x".to_string()));
    let stop = state.record_scheduled_outcome(Some((1, 2)), &failed, true, Ok(()));
    assert!(!stop);
    assert!(state.active_targets.is_empty());
    let done = OperationOutcome::planned(1, "b".to_string(), OperationKind::TaskCreate, 1, None);
    state.record_scheduled_outcome(None, &done, true, Ok(()));
    let error = state.final_result(true, false, Ok(())).expect_err("partial failure");
    assert_eq!(error.code(), "batch_partial_failure");
    assert_eq!(error.to_string(), "1 batch operation(s) failed and 1 completed");

    let mut state = SchedulerState::new(false);
    let checkpoint_failure = OperationOutcome::failed_cli(0, "a".to_string(), OperationKind::TaskCreate, Some(1), None, CliError::checkpoint_io("disk".to_string()));
    assert!(state.record_scheduled_outcome(None, &checkpoint_failure, true, Ok(())));
    let error = state.final_result(true, true, Ok(())).expect_err("checkpoint failure");
    assert_eq!(error.code(), "checkpoint_io");
    assert_eq!(error.exit_code(), 4);

    let mut state = SchedulerState::new(false);
    let mut running = RunningOperation::new(None, 0, "c".to_string(), OperationKind::TaskCreate, 1, None);
    running.progress.mark_mutation_in_flight();
    let forced = running.forced_outcome(false);
    state.forced = true;
    assert!(state.record_scheduled_outcome(None, &forced, false, Ok(())));
    let error = state.final_result(false, true, Ok(())).expect_err("interrupted");
    assert_eq!(error.code(), "outcome_ambiguous");
    assert_eq!(error.exit_code(), 130);
    assert!(error.to_string().contains("resume from the checkpoint"));
}

#[test]
fn prepared_plans_are_pinned_by_a_started_record() {
    let fresh = reconcile_prepared_plan(OperationKind::TaskCreate, 1, None, &None, &plan(None, "c1", true)).expect("fresh");
    assert!(!fresh.reconciled);
    let started = fresh.record_started.expect("pin the plan");
    assert_eq!(started.change_commitment.as_deref(), Some("c1"));

    let resumed = Some(StartedMetadata { kind: OperationKind::TaskCreate, project_id: 1, task_id: None, expected_updated_at: None, change_commitment: Some("c1".to_string()) });
    let again = reconcile_prepared_plan(OperationKind::TaskCreate, 1, None, &resumed, &plan(None, "c1", true)).expect("same plan");
    assert!(again.record_started.is_none());
    let changed = reconcile_prepared_plan(OperationKind::TaskCreate, 1, None, &resumed, &plan(None, "c2", true)).err().expect("changed plan");
    assert_eq!(changed.to_string(), "checkpointed task.create plan no longer matches canonical input");
}

#[test]
fn kinds_and_statuses_have_their_wire_names() {
    assert_eq!(operation_name(OperationKind::TaskCreate), "task.create");
    assert_eq!(operation_name(OperationKind::TaskUpdate), "task.update");
    assert_eq!(outcome_status_name(OutcomeStatus::Succeeded), "succeeded");
    assert_eq!(outcome_status_name(OutcomeStatus::Failed), "failed");
    assert_eq!(outcome_status_name(OutcomeStatus::Skipped), "skipped");
    assert_eq!(outcome_status_name(OutcomeStatus::Planned), "planned");
    assert_eq!(outcome_status_name(OutcomeStatus::Interrupted), "interrupted");
    assert!(is_false(&false));
    assert!(!is_false(&true));
}

#[test]
fn checkpoint_kind_must_match_the_input() {
    assert!(ensure_checkpoint_kind(OperationKind::TaskUpdate, OperationKind::TaskUpdate).is_ok());
    let error = ensure_checkpoint_kind(OperationKind::TaskCreate, OperationKind::TaskUpdate).expect_err("mismatch");
    assert_eq!(error.code, "checkpoint_conflict");
    assert_eq!(error.message, "checkpoint operation kind does not match canonical batch input");
}

#[test]
fn interrupted_credential_refresh_is_classified_by_its_result() {
    assert!(matches!(
        classify_interrupted_credential_refresh(Ok(()), true),
        CredentialRefreshWait::ReachedDurableBoundary
    ));
    let cancelled = PublicError::with_code("cancelled", "cancelled".to_string());
    assert!(matches!(
        classify_interrupted_credential_refresh(Err(cancelled), true),
        CredentialRefreshWait::ReachedDurableBoundary
    ));
    let failure = PublicError::unexpected("refresh failed".to_string());
    match classify_interrupted_credential_refresh(Err(failure), true) {
        CredentialRefreshWait::SessionAmbiguous(message) => {
            assert_eq!(message, "batch credential refresh failed after the server may have rotated the session")
        }
        other => panic!("unexpected classification {other:?}"),
    }
    let failure = PublicError::unexpected("refresh failed".to_string());
    match classify_interrupted_credential_refresh(Err(failure), false) {
        CredentialRefreshWait::Failed(error) => assert_eq!(error.message, "refresh failed"),
        other => panic!("unexpected classification {other:?}"),
    }
}

#[test]
fn a_signal_during_a_credential_refresh_overrides_the_worker_outcome() {
    let mut operation = RunningOperation::new(None, 3, "refreshing".to_string(), OperationKind::TaskCreate, 9, None);
    assert!(!operation.observe_signal(false));
    let planned = OperationOutcome::planned(3, "refreshing".to_string(), OperationKind::TaskCreate, 9, None);
    let kept = RunningOperation::new(None, 3, "refreshing".to_string(), OperationKind::TaskCreate, 9, None)
        .finalize_outcome(planned, true);
    assert_eq!(kept.status, OutcomeStatus::Planned);

    assert!(operation.observe_signal(true));
    let planned = OperationOutcome::planned(3, "refreshing".to_string(), OperationKind::TaskCreate, 9, None);
    let outcome = operation.finalize_outcome(planned, true);
    assert_eq!(outcome.status, OutcomeStatus::Interrupted);
    assert_eq!(outcome.fatal_exit_code, Some(130));
    assert_eq!(outcome.error.expect("session ambiguity").code, "session_outcome_ambiguous");
}

#[test]
fn a_lost_worker_fails_its_operation() {
    let operation = RunningOperation::new(None, 1, "lost".to_string(), OperationKind::TaskCreate, 9, None);
    let outcome = operation.join_failure_outcome(false);
    assert_eq!(outcome.status, OutcomeStatus::Failed);
    assert_eq!(outcome.error.expect("worker failure").code, "unexpected");

    let mut state = SchedulerState::new(false);
    state.start_operation(None);
    state.record_lost_worker();
    assert_eq!(state.in_flight, 0);
    assert_eq!(state.taken, 1);
    assert_eq!(state.counters.failed, 1);
    assert_eq!(state.fatal_exit_code, Some(1));
    assert!(state.should_emit_summary());
}

#[test]
fn signals_are_handled_by_what_the_operation_is_doing() {
    assert_eq!(interrupt_action(true, true, true, true), InterruptAction::SessionAmbiguous);
    assert_eq!(interrupt_action(true, false, true, true), InterruptAction::AwaitCredentialRefresh);
    assert_eq!(interrupt_action(true, false, false, true), InterruptAction::AwaitMutation);
    assert_eq!(interrupt_action(false, false, false, true), InterruptAction::Cancel);
    assert_eq!(interrupt_action(true, false, false, false), InterruptAction::Cancel);
}

#[test]
fn outcome_rows_align_their_columns_and_name_the_task() {
    let task = 0x0190_0000_0000_7000_8000_0000_0000_0009u128;
    let task_text = uuid::Uuid::from_u128(task).to_string();
    let mut outcome = OperationOutcome::planned(0, "op-1".to_string(), OperationKind::TaskUpdate, 7, Some(task));
    assert_eq!(
        emit_outcome(&outcome),
        format!("    1  op-1                      planned      task={task_text}")
    );
    outcome.task_reference = Some("OPS-0042".to_string());
    outcome.error = Some(sealtask::batch::operation_error("conflict"));
    outcome.status = OutcomeStatus::Failed;
    assert_eq!(
        emit_outcome(&outcome),
        format!("    1  op-1                      failed       task=OPS-0042 ({task_text}) error=conflict")
    );
    let created = OperationOutcome::planned(123456, "a-very-long-operation-identifier-x".to_string(), OperationKind::TaskCreate, 7, None);
    assert_eq!(
        emit_outcome(&created),
        "123457  a-very-long-operation-identifier-x  planned      task=-"
    );
}

#[test]
fn resumed_operations_take_their_task_from_the_checkpoint() {
    let started = |task_id: Option<u128>| StartedMetadata {
        kind: OperationKind::TaskUpdate,
        project_id: 7,
        task_id,
        expected_updated_at: None,
        change_commitment: None,
    };
    assert_eq!(resolved_from_metadata(OperationKind::TaskUpdate, &started(Some(9))).expect("update target"), Some(9));
    assert_eq!(resolved_from_metadata(OperationKind::TaskCreate, &started(None)).expect("create target"), None);
    let error = resolved_from_metadata(OperationKind::TaskCreate, &started(Some(9))).expect_err("create with task");
    assert_eq!(error.message, "checkpoint task.create unexpectedly contains a task target");
    let error = resolved_from_metadata(OperationKind::TaskUpdate, &started(None)).expect_err("update without task");
    assert_eq!(error.message, "checkpoint task.update is missing its canonical task target");
}

#[test]
fn batch_runs_refuse_document_json_and_resume_without_checkpoint() {
    assert!(batch_run_preflight(OutputFormat::Table, false, false).is_ok());
    assert!(batch_run_preflight(OutputFormat::Jsonl, true, true).is_ok());
    for format in [OutputFormat::Json, OutputFormat::JsonPretty] {
        let error = batch_run_preflight(format, true, false).expect_err("json refused");
        assert_eq!(error.code, "validation");
        assert_eq!(error.message, "batch execution is a record stream; use table output or '--format jsonl'");
    }
    let error = batch_run_preflight(OutputFormat::Table, true, false).expect_err("resume needs checkpoint");
    assert_eq!(error.code, "checkpoint_conflict");
    assert_eq!(error.exit_code, 4);
    assert_eq!(error.message, "--resume requires --checkpoint PATH");
}

#[test]
fn early_interruptions_report_every_operation_as_not_run() {
    let summary = interrupted_summary(3);
    assert_eq!(
        emit_summary(&summary),
        "summary  total=3 succeeded=0 failed=0 skipped=0 planned=0 not-run=3 interrupted-count=0 interrupted=true"
    );
    let error = preparation_interruption(false);
    assert_eq!(error.exit_code, 130);
    assert_eq!(error.message, "batch interrupted before checkpoint or mutation processing");
    assert_eq!(preparation_interruption(true).message, "batch interrupted during checkpoint acquisition");
}

#[test]
fn scheduling_respects_the_job_limit_and_counts_each_item_once() {
    let mut state = SchedulerState::new(false);
    let pending = vec![PendingItem::Mutation(Some((1, 2))), PendingItem::Mutation(Some((1, 2))), PendingItem::Immediate];
    assert_eq!(state.schedule_next(1, false, &pending), Some(0));
    state.start_operation(Some((1, 2)));
    let rest = vec![PendingItem::Mutation(Some((1, 2))), PendingItem::Immediate];
    // One job is running and the limit is one: nothing else starts.
    assert_eq!(state.schedule_next(1, false, &rest), None);
    assert!(!state.interrupted);
    // With room for two, the busy task is skipped for the immediate item.
    assert_eq!(state.schedule_next(2, false, &rest), Some(1));
    let planned = OperationOutcome::planned(2, "c".to_string(), OperationKind::TaskCreate, 1, None);
    assert!(!state.record_immediate_outcome(&planned, true, Ok(())));
    let done = OperationOutcome::planned(0, "a".to_string(), OperationKind::TaskUpdate, 1, Some(2));
    assert!(!state.record_worker_outcome(Some((1, 2)), &done, true, Ok(())));
    assert_eq!(state.taken, 2);
    assert_eq!(state.in_flight, 0);
    assert_eq!(state.counters.processed(), 2);
    assert_eq!(state.summary(3).not_run, 1);
    // A signal stops scheduling before anything else is taken.
    assert_eq!(state.schedule_next(2, true, &pending), None);
    assert!(state.interrupted && state.stop_scheduling);
    assert_eq!(state.schedule_next(2, false, &pending), None);
}

#[test]
fn the_jsonl_summary_record_carries_its_schema_type_and_totals() {
    let summary = BatchSummary {
        total: 3,
        succeeded: 1,
        failed: 1,
        skipped: 0,
        planned: 0,
        not_run: 1,
        interrupted_count: 0,
        interrupted: false,
    };
    let record = summary_record(&summary);
    assert_eq!(record.schema_version, 1);
    assert_eq!(record.record_type, "batch.summary");
    assert_eq!(record.summary.total, 3);
    assert_eq!(record.summary.not_run, 1);
    assert!(!record.summary.interrupted);
}
