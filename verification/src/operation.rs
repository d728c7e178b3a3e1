use crate::batch::{
    execution_failure_is_definitive, identifies, resume_prepare_safety_error, spec_failure_is_definitive,
    spec_sanitized_operation_error, OperationOutcome, OutcomeStatus, TaskSummary,
};
use crate::checkpoint::{opt_view, OperationKind, StartedMetadata};
use crate::error::{CliError, PublicError};
use crate::schedule::{original_update_revision, reconcile_prepared_plan, TaskMutationPlan};
use crate::text::owned;
use vstd::prelude::*;

verus! {

/// Where one batch operation stands. A stage that waits for a checkpoint
/// write or a signal check carries what it needs afterwards.
#[derive(Debug)]
pub enum OperationStage {
    /// Nothing has happened yet.
    Start,
    /// Checking for a signal before anything is recorded.
    CheckingBeforeStart,
    /// Writing the first started record.
    RecordingStart,
    /// Checking for a signal before the mutation is prepared.
    CheckingBeforePrepare,
    /// The mutation is being prepared.
    Preparing,
    /// Recording that preparation definitively failed with this error.
    RecordingPreparationFailure(PublicError),
    /// Checking for a signal before a prepared plan is reconciled.
    CheckingBeforeReconcile(TaskMutationPlan),
    /// Writing the started record that pins the plan.
    RecordingPlan { would_change: bool, reconciled: bool },
    /// Checking for a signal before the mutation is sent.
    CheckingBeforeExecute { would_change: bool, reconciled: bool },
    /// The mutation is being sent.
    Executing { reconciled: bool },
    /// The mutation took effect; the task it returned is being recorded.
    RecordingSuccess { task: TaskSummary, reconciled: bool },
    /// Recording that the mutation definitively failed with this error.
    RecordingExecutionFailure(PublicError),
    /// The operation has its outcome.
    Finished,
}

/// What stays fixed while one batch operation is carried out: what
/// identifies it and its target, whether this is a dry run, whether a
/// checkpoint is kept, and what a resumed checkpoint recorded when it
/// started.
#[derive(Debug)]
pub struct OperationInfo {
    pub index: usize,
    pub operation_id: String,
    pub kind: OperationKind,
    pub project_id: u128,
    pub task_id: Option<u128>,
    pub dry_run: bool,
    pub checkpointed: bool,
    pub resume: Option<StartedMetadata>,
}

/// One batch operation as it is carried out, and its stage.
#[derive(Debug)]
pub struct OperationState {
    pub info: OperationInfo,
    pub stage: OperationStage,
}

/// What the runner reports back.
#[derive(Debug)]
pub enum OperationEvent {
    /// Start the operation.
    Begin,
    /// The signal check asked for: `Ok(true)` when a signal arrived, or the
    /// listener's failure.
    SignalChecked(Result<bool, CliError>),
    /// The checkpoint write asked for finished, or failed.
    CheckpointWritten(Result<(), CliError>),
    /// Preparation finished with a plan or an error.
    Prepared(Result<TaskMutationPlan, PublicError>),
    /// The mutation returned the task or an error.
    Executed(Result<TaskSummary, PublicError>),
    /// A signal stopped preparation or execution at a durable boundary, or
    /// after the session may have been rotated.
    Interrupted { session_ambiguous: bool },
}

/// What the runner does next.
#[derive(Debug)]
pub enum OperationAction {
    /// Check whether a signal arrived.
    CheckSignal,
    /// Write this started record to the checkpoint.
    RecordStarted(StartedMetadata),
    /// Prepare the mutation, expecting this revision of a resumed update.
    Prepare { original_update_revision: Option<i128> },
    /// Send the mutation; `mutation_in_flight` when it changes anything.
    Execute { mutation_in_flight: bool },
    /// Record that the mutation committed.
    RecordSucceeded { task_id: u128, updated_at: i128 },
    /// Record that the operation definitively failed.
    RecordFailed,
    /// The operation ends with this outcome.
    Finish(OperationOutcome),
    /// Nothing to do for this event.
    Wait,
}

/// A fresh operation.
pub fn operation_start(index: usize, operation_id: String, kind: OperationKind, project_id: u128, task_id: Option<u128>, dry_run: bool, checkpointed: bool, resume: Option<StartedMetadata>) -> (s: OperationState)
    ensures
        s.info.index == index,
        s.info.operation_id@ == operation_id@,
        s.info.kind == kind,
        s.info.project_id == project_id,
        s.info.task_id == task_id,
        s.info.dry_run == dry_run,
        s.info.checkpointed == checkpointed,
        s.info.resume == resume,
        s.stage is Start,
{
    OperationState {
        info: OperationInfo { index, operation_id, kind, project_id, task_id, dry_run, checkpointed, resume },
        stage: OperationStage::Start,
    }
}

/// An outcome without task details: the operation and `task_id`, its
/// status, its error code (with the fixed public message) and its exit
/// code.
pub open spec fn plain_outcome(o: OperationOutcome, i: OperationInfo, task_id: Option<u128>, status: OutcomeStatus, code: Option<Seq<char>>, fatal_exit_code: Option<i32>) -> bool {
    &&& identifies(o, i.index, i.operation_id@, i.kind, Some(i.project_id), task_id)
    &&& o.status == status
    &&& o.task_reference_number is None
    &&& o.task_reference is None
    &&& o.updated_at is None
    &&& !o.resumed
    &&& match code {
        Some(c) => o.error matches Some(e) && e.code@ == c && e.message@ == spec_sanitized_operation_error(c),
        None => o.error is None,
    }
    &&& o.fatal_exit_code == fatal_exit_code
}

/// The action ends the operation with an outcome of that shape.
pub open spec fn finishes(a: OperationAction, i: OperationInfo, task_id: Option<u128>, status: OutcomeStatus, code: Option<Seq<char>>, fatal_exit_code: Option<i32>) -> bool {
    a matches OperationAction::Finish(o) && plain_outcome(o, i, task_id, status, code, fatal_exit_code)
}

/// Ends with an interruption at a durable boundary.
pub open spec fn interrupted(a: OperationAction, i: OperationInfo) -> bool {
    finishes(a, i, i.task_id, OutcomeStatus::Interrupted, None, Some(130i32))
}

/// Ends with an interruption after the session may have been rotated.
pub open spec fn session_ambiguous(a: OperationAction, i: OperationInfo) -> bool {
    finishes(a, i, i.task_id, OutcomeStatus::Interrupted, Some("session_outcome_ambiguous"@), Some(130i32))
}

/// Ends failed by a command error.
pub open spec fn failed_cli(a: OperationAction, i: OperationInfo, task_id: Option<u128>, e: CliError) -> bool {
    finishes(a, i, task_id, OutcomeStatus::Failed, Some(e.code@), Some(e.exit_code))
}

/// Ends failed by a service error.
pub open spec fn failed_runtime(a: OperationAction, i: OperationInfo, e: PublicError) -> bool {
    finishes(a, i, i.task_id, OutcomeStatus::Failed, Some(e.code@), None)
}

/// Ends with the committed task.
pub open spec fn succeeded(a: OperationAction, i: OperationInfo, task: TaskSummary, resumed: bool) -> bool {
    a matches OperationAction::Finish(o)
        && identifies(o, i.index, i.operation_id@, i.kind, Some(i.project_id), Some(task.id))
        && o.status == OutcomeStatus::Succeeded && o.task_reference_number == task.reference_number
        && o.task_reference == task.reference && o.updated_at == Some(task.updated_at)
        && o.resumed == resumed && o.error is None && o.fatal_exit_code is None
}

/// The revision a resumed update must still be prepared against.
pub open spec fn spec_original_revision(i: OperationInfo) -> Option<i128> {
    if i.kind == OperationKind::TaskUpdate && i.resume is Some { i.resume->Some_0.expected_updated_at } else { None }
}

/// A freshly prepared plan conflicts with what a resumed checkpoint
/// recorded: an update must keep its revision and change commitment; a
/// create must keep its change commitment.
pub open spec fn plan_conflicts(kind: OperationKind, resume: Option<StartedMetadata>, plan: TaskMutationPlan) -> bool {
    match resume {
        Some(started) => if kind == OperationKind::TaskUpdate && started.expected_updated_at is Some {
            !(plan.expected_updated_at == started.expected_updated_at
                && opt_view(started.change_commitment) == Some(plan.change_commitment@))
        } else {
            kind == OperationKind::TaskCreate && started.change_commitment is Some
                && opt_view(started.change_commitment) != Some(plan.change_commitment@)
        },
        None => false,
    }
}

/// A resumed update whose plan no longer changes anything was applied
/// before the interruption.
pub open spec fn plan_reconciled(kind: OperationKind, resume: Option<StartedMetadata>, plan: TaskMutationPlan) -> bool {
    resume matches Some(started) && kind == OperationKind::TaskUpdate && started.expected_updated_at is Some
        && !plan.would_change
}

/// The checkpoint already records exactly this plan.
pub open spec fn plan_recorded(resume: Option<StartedMetadata>, plan: TaskMutationPlan) -> bool {
    resume matches Some(started) && started.expected_updated_at == plan.expected_updated_at
        && opt_view(started.change_commitment) == Some(plan.change_commitment@)
}

/// The started record that pins `plan`.
pub open spec fn records_plan(m: StartedMetadata, i: OperationInfo, plan: TaskMutationPlan) -> bool {
    m.kind == i.kind && m.project_id == i.project_id && m.task_id == i.task_id
        && m.expected_updated_at == plan.expected_updated_at && opt_view(m.change_commitment) == Some(plan.change_commitment@)
}

/// The operation moved to `stage`.
pub open spec fn at(i: OperationInfo, stage: OperationStage) -> OperationState {
    OperationState { info: i, stage }
}

/// A signal check at a boundary: a signal interrupts, a listener failure
/// fails the operation, and otherwise `go` happens.
pub open spec fn after_check(i: OperationInfo, result: Result<bool, CliError>, next: OperationState, action: OperationAction, go: bool) -> bool {
    match result {
        Ok(true) => next == at(i, OperationStage::Finished) && interrupted(action, i),
        Err(e) => next == at(i, OperationStage::Finished) && failed_cli(action, i, i.task_id, e),
        Ok(false) => go,
    }
}

/// One step of an operation, from its state and an event to its next state
/// and action. Events that do not belong to the stage change nothing.
pub open spec fn operation_step_ok(s: OperationState, ev: OperationEvent, next: OperationState, action: OperationAction) -> bool {
    let i = s.info;
    let done = at(i, OperationStage::Finished);
    let records_start = !i.dry_run && i.resume is None && i.checkpointed;
    match (s.stage, ev) {
        (OperationStage::Start, OperationEvent::Begin) =>
            next == at(i, OperationStage::CheckingBeforeStart) && action is CheckSignal,
        (OperationStage::CheckingBeforeStart, OperationEvent::SignalChecked(r)) => after_check(i, r, next, action,
            if records_start {
                next == at(i, OperationStage::RecordingStart) && (action matches OperationAction::RecordStarted(m)
                    && m.kind == i.kind && m.project_id == i.project_id && m.task_id == i.task_id
                    && m.expected_updated_at is None && m.change_commitment is None)
            } else {
                next == at(i, OperationStage::CheckingBeforePrepare) && action is CheckSignal
            }),
        (OperationStage::RecordingStart, OperationEvent::CheckpointWritten(Ok(()))) =>
            next == at(i, OperationStage::CheckingBeforePrepare) && action is CheckSignal,
        (OperationStage::RecordingStart, OperationEvent::CheckpointWritten(Err(e))) =>
            next == done && failed_cli(action, i, i.task_id, e),
        (OperationStage::CheckingBeforePrepare, OperationEvent::SignalChecked(r)) => after_check(i, r, next, action,
            next == at(i, OperationStage::Preparing)
                && action == (OperationAction::Prepare { original_update_revision: spec_original_revision(i) })),
        (OperationStage::Preparing, OperationEvent::Interrupted { session_ambiguous: a }) =>
            next == done && if a { session_ambiguous(action, i) } else { interrupted(action, i) },
        (OperationStage::Preparing, OperationEvent::SignalChecked(Err(e))) =>
            next == done && failed_cli(action, i, i.task_id, e),
        (OperationStage::Preparing, OperationEvent::Prepared(Err(e))) =>
            if i.kind == OperationKind::TaskUpdate && spec_original_revision(i) is Some && e.code@ == "conflict"@ {
                next == done && finishes(action, i, i.task_id, OutcomeStatus::Failed, Some("checkpoint_conflict"@), Some(4i32))
            } else if records_start {
                next == at(i, OperationStage::RecordingPreparationFailure(e)) && action is RecordFailed
            } else {
                next == done && failed_runtime(action, i, e)
            },
        (OperationStage::Preparing, OperationEvent::Prepared(Ok(plan))) => if i.dry_run {
            next == done && finishes(action, i, i.task_id, OutcomeStatus::Planned, None, None)
        } else {
            next == at(i, OperationStage::CheckingBeforeReconcile(plan)) && action is CheckSignal
        },
        (OperationStage::RecordingPreparationFailure(e), OperationEvent::CheckpointWritten(Ok(()))) =>
            next == done && failed_runtime(action, i, e),
        (OperationStage::RecordingPreparationFailure(_), OperationEvent::CheckpointWritten(Err(ce))) =>
            next == done && failed_cli(action, i, i.task_id, ce),
        (OperationStage::CheckingBeforeReconcile(plan), OperationEvent::SignalChecked(r)) => after_check(i, r, next, action,
            if plan_conflicts(i.kind, i.resume, plan) {
                next == done && finishes(action, i, i.task_id, OutcomeStatus::Failed, Some("checkpoint_conflict"@), Some(4i32))
            } else if !plan_recorded(i.resume, plan) && i.checkpointed {
                next == at(i, OperationStage::RecordingPlan {
                    would_change: plan.would_change,
                    reconciled: plan_reconciled(i.kind, i.resume, plan),
                }) && (action matches OperationAction::RecordStarted(m) && records_plan(m, i, plan))
            } else {
                next == at(i, OperationStage::CheckingBeforeExecute {
                    would_change: plan.would_change,
                    reconciled: plan_reconciled(i.kind, i.resume, plan),
                }) && action is CheckSignal
            }),
        (OperationStage::RecordingPlan { would_change, reconciled }, OperationEvent::CheckpointWritten(Ok(()))) =>
            next == at(i, OperationStage::CheckingBeforeExecute { would_change, reconciled }) && action is CheckSignal,
        (OperationStage::RecordingPlan { .. }, OperationEvent::CheckpointWritten(Err(e))) =>
            next == done && failed_cli(action, i, i.task_id, e),
        (OperationStage::CheckingBeforeExecute { would_change, reconciled }, OperationEvent::SignalChecked(r)) =>
            after_check(i, r, next, action,
                next == at(i, OperationStage::Executing { reconciled })
                    && action == (OperationAction::Execute { mutation_in_flight: would_change })),
        (OperationStage::Executing { .. }, OperationEvent::Interrupted { session_ambiguous: a }) =>
            next == done && if a { session_ambiguous(action, i) } else { interrupted(action, i) },
        (OperationStage::Executing { .. }, OperationEvent::SignalChecked(Err(e))) =>
            next == done && failed_cli(action, i, i.task_id, e),
        (OperationStage::Executing { reconciled }, OperationEvent::Executed(Ok(task))) => if i.checkpointed {
            next == at(i, OperationStage::RecordingSuccess { task, reconciled })
                && action == (OperationAction::RecordSucceeded { task_id: task.id, updated_at: task.updated_at })
        } else {
            next == done && succeeded(action, i, task, reconciled || i.resume is Some)
        },
        (OperationStage::Executing { .. }, OperationEvent::Executed(Err(e))) =>
            if spec_failure_is_definitive(e.code@) && i.checkpointed {
                next == at(i, OperationStage::RecordingExecutionFailure(e)) && action is RecordFailed
            } else {
                next == done && failed_runtime(action, i, e)
            },
        (OperationStage::RecordingSuccess { task, reconciled }, OperationEvent::CheckpointWritten(Ok(()))) =>
            next == done && succeeded(action, i, task, reconciled || i.resume is Some),
        (OperationStage::RecordingSuccess { task, .. }, OperationEvent::CheckpointWritten(Err(e))) =>
            next == done && failed_cli(action, i, Some(task.id), e),
        (OperationStage::RecordingExecutionFailure(e), OperationEvent::CheckpointWritten(Ok(()))) =>
            next == done && failed_runtime(action, i, e),
        (OperationStage::RecordingExecutionFailure(_), OperationEvent::CheckpointWritten(Err(ce))) =>
            next == done && failed_cli(action, i, i.task_id, ce),
        _ => next == s && action is Wait,
    }
}

fn finish_interrupted(i: OperationInfo, session_ambiguous: bool) -> (r: (OperationState, OperationAction))
    ensures
        r.0 == at(i, OperationStage::Finished),
        session_ambiguous ==> crate::operation::session_ambiguous(r.1, i),
        !session_ambiguous ==> interrupted(r.1, i),
{
    let outcome = if session_ambiguous {
        OperationOutcome::session_ambiguous_interrupted_parts(i.index, owned(i.operation_id.as_str()), i.kind, Some(i.project_id), i.task_id)
    } else {
        OperationOutcome::interrupted_parts(i.index, owned(i.operation_id.as_str()), i.kind, Some(i.project_id), i.task_id)
    };
    (OperationState { info: i, stage: OperationStage::Finished }, OperationAction::Finish(outcome))
}

fn finish_cli(i: OperationInfo, task_id: Option<u128>, e: CliError) -> (r: (OperationState, OperationAction))
    ensures
        r.0 == at(i, OperationStage::Finished),
        failed_cli(r.1, i, task_id, e),
{
    let outcome = OperationOutcome::failed_cli(i.index, owned(i.operation_id.as_str()), i.kind, Some(i.project_id), task_id, e);
    (OperationState { info: i, stage: OperationStage::Finished }, OperationAction::Finish(outcome))
}

fn finish_runtime(i: OperationInfo, e: PublicError) -> (r: (OperationState, OperationAction))
    ensures
        r.0 == at(i, OperationStage::Finished),
        failed_runtime(r.1, i, e),
{
    let outcome = OperationOutcome::failed_runtime_parts(i.index, owned(i.operation_id.as_str()), i.kind, Some(i.project_id), i.task_id, e);
    (OperationState { info: i, stage: OperationStage::Finished }, OperationAction::Finish(outcome))
}

fn finish_succeeded(i: OperationInfo, task: TaskSummary, reconciled: bool) -> (r: (OperationState, OperationAction))
    ensures
        r.0 == at(i, OperationStage::Finished),
        succeeded(r.1, i, task, reconciled || i.resume is Some),
{
    let resumed = reconciled || i.resume.is_some();
    let outcome = OperationOutcome::succeeded(i.index, owned(i.operation_id.as_str()), i.kind, i.project_id, task, resumed);
    (OperationState { info: i, stage: OperationStage::Finished }, OperationAction::Finish(outcome))
}

fn check_signal(i: OperationInfo, result: Result<bool, CliError>, go_stage: OperationStage, go_action: OperationAction) -> (r: (OperationState, OperationAction))
    ensures
        after_check(i, result, r.0, r.1, r.0 == at(i, go_stage) && r.1 == go_action),
{
    match result {
        Ok(true) => finish_interrupted(i, false),
        Err(e) => { let t = i.task_id; finish_cli(i, t, e) },
        Ok(false) => (OperationState { info: i, stage: go_stage }, go_action),
    }
}

/// Carries an operation one step: the signal checks, the checkpoint
/// records and the mutation come in the order that keeps a resumed batch
/// safe, a dry run records and sends nothing, and each ending is turned
/// into the operation's outcome.
pub fn operation_step(s: OperationState, ev: OperationEvent) -> (r: (OperationState, OperationAction))
    ensures
        operation_step_ok(s, ev, r.0, r.1),
{
    let ghost old_s = s;
    let OperationState { info: i, stage } = s;
    let records_start = !i.dry_run && i.resume.is_none() && i.checkpointed;
    match (stage, ev) {
        (OperationStage::Start, OperationEvent::Begin) =>
            (OperationState { info: i, stage: OperationStage::CheckingBeforeStart }, OperationAction::CheckSignal),
        (OperationStage::CheckingBeforeStart, OperationEvent::SignalChecked(r)) => if records_start {
            let m = StartedMetadata { kind: i.kind, project_id: i.project_id, task_id: i.task_id, expected_updated_at: None, change_commitment: None };
            check_signal(i, r, OperationStage::RecordingStart, OperationAction::RecordStarted(m))
        } else {
            check_signal(i, r, OperationStage::CheckingBeforePrepare, OperationAction::CheckSignal)
        },
        (OperationStage::RecordingStart, OperationEvent::CheckpointWritten(w)) => match w {
            Ok(()) => (OperationState { info: i, stage: OperationStage::CheckingBeforePrepare }, OperationAction::CheckSignal),
            Err(e) => { let t = i.task_id; finish_cli(i, t, e) },
        },
        (OperationStage::CheckingBeforePrepare, OperationEvent::SignalChecked(r)) => {
            let revision = original_update_revision(i.kind, &i.resume);
            check_signal(i, r, OperationStage::Preparing, OperationAction::Prepare { original_update_revision: revision })
        },
        (OperationStage::Preparing, OperationEvent::Interrupted { session_ambiguous }) => finish_interrupted(i, session_ambiguous),
        (OperationStage::Preparing, OperationEvent::SignalChecked(Err(e))) => { let t = i.task_id; finish_cli(i, t, e) },
        (OperationStage::Preparing, OperationEvent::Prepared(Err(e))) => {
            let revision = original_update_revision(i.kind, &i.resume);
            match resume_prepare_safety_error(i.kind, revision, &e) {
                Some(ce) => { let t = i.task_id; finish_cli(i, t, ce) },
                None => if records_start {
                    (OperationState { info: i, stage: OperationStage::RecordingPreparationFailure(e) }, OperationAction::RecordFailed)
                } else {
                    finish_runtime(i, e)
                },
            }
        },
        (OperationStage::Preparing, OperationEvent::Prepared(Ok(plan))) => if i.dry_run {
            let outcome = OperationOutcome::planned(i.index, owned(i.operation_id.as_str()), i.kind, i.project_id, i.task_id);
            (OperationState { info: i, stage: OperationStage::Finished }, OperationAction::Finish(outcome))
        } else {
            (OperationState { info: i, stage: OperationStage::CheckingBeforeReconcile(plan) }, OperationAction::CheckSignal)
        },
        (OperationStage::RecordingPreparationFailure(e), OperationEvent::CheckpointWritten(w)) => match w {
            Ok(()) => finish_runtime(i, e),
            Err(ce) => { let t = i.task_id; finish_cli(i, t, ce) },
        },
        (OperationStage::CheckingBeforeReconcile(plan), OperationEvent::SignalChecked(r)) => match r {
            Ok(true) => finish_interrupted(i, false),
            Err(e) => { let t = i.task_id; finish_cli(i, t, e) },
            Ok(false) => match reconcile_prepared_plan(i.kind, i.project_id, i.task_id, &i.resume, &plan) {
                Err(e) => { let t = i.task_id; finish_cli(i, t, e) },
                Ok(check) => {
                    let would_change = plan.would_change;
                    let reconciled = check.reconciled;
                    match check.record_started {
                        Some(m) => if i.checkpointed {
                            (OperationState { info: i, stage: OperationStage::RecordingPlan { would_change, reconciled } }, OperationAction::RecordStarted(m))
                        } else {
                            (OperationState { info: i, stage: OperationStage::CheckingBeforeExecute { would_change, reconciled } }, OperationAction::CheckSignal)
                        },
                        None => (OperationState { info: i, stage: OperationStage::CheckingBeforeExecute { would_change, reconciled } }, OperationAction::CheckSignal),
                    }
                },
            },
        },
        (OperationStage::RecordingPlan { would_change, reconciled }, OperationEvent::CheckpointWritten(w)) => match w {
            Ok(()) => (OperationState { info: i, stage: OperationStage::CheckingBeforeExecute { would_change, reconciled } }, OperationAction::CheckSignal),
            Err(e) => { let t = i.task_id; finish_cli(i, t, e) },
        },
        (OperationStage::CheckingBeforeExecute { would_change, reconciled }, OperationEvent::SignalChecked(r)) =>
            check_signal(i, r, OperationStage::Executing { reconciled }, OperationAction::Execute { mutation_in_flight: would_change }),
        (OperationStage::Executing { reconciled }, OperationEvent::Interrupted { session_ambiguous }) => finish_interrupted(i, session_ambiguous),
        (OperationStage::Executing { reconciled }, OperationEvent::SignalChecked(Err(e))) => { let t = i.task_id; finish_cli(i, t, e) },
        (OperationStage::Executing { reconciled }, OperationEvent::Executed(Ok(task))) => if i.checkpointed {
            let task_id = task.id;
            let updated_at = task.updated_at;
            (OperationState { info: i, stage: OperationStage::RecordingSuccess { task, reconciled } }, OperationAction::RecordSucceeded { task_id, updated_at })
        } else {
            finish_succeeded(i, task, reconciled)
        },
        (OperationStage::Executing { reconciled }, OperationEvent::Executed(Err(e))) =>
            if execution_failure_is_definitive(&e) && i.checkpointed {
                (OperationState { info: i, stage: OperationStage::RecordingExecutionFailure(e) }, OperationAction::RecordFailed)
            } else {
                finish_runtime(i, e)
            },
        (OperationStage::RecordingSuccess { task, reconciled }, OperationEvent::CheckpointWritten(w)) => match w {
            Ok(()) => finish_succeeded(i, task, reconciled),
            Err(e) => { let t = Some(task.id); finish_cli(i, t, e) },
        },
        (OperationStage::RecordingExecutionFailure(e), OperationEvent::CheckpointWritten(w)) => match w {
            Ok(()) => finish_runtime(i, e),
            Err(ce) => { let t = i.task_id; finish_cli(i, t, ce) },
        },
        (stage, _) => (OperationState { info: i, stage }, OperationAction::Wait),
    }
}

/// The stages a dry run passes through: it never records or sends.
pub open spec fn dry_run_stage(stage: OperationStage) -> bool {
    stage is Start || stage is CheckingBeforeStart || stage is CheckingBeforePrepare || stage is Preparing
        || stage is Finished
}

/// A dry run writes no checkpoint record and sends no mutation; its
/// prepared plan ends it as planned.
pub proof fn lemma_dry_run_records_and_sends_nothing(s: OperationState, ev: OperationEvent, next: OperationState, action: OperationAction)
    requires
        s.info.dry_run,
        dry_run_stage(s.stage),
        operation_step_ok(s, ev, next, action),
    ensures
        next.info == s.info,
        dry_run_stage(next.stage),
        !(action is RecordStarted || action is RecordSucceeded || action is RecordFailed || action is Execute),
        action matches OperationAction::Finish(o) ==> o.status != OutcomeStatus::Succeeded,
        (s.stage is Preparing && ev is Prepared && ev->Prepared_0 is Ok) ==>
            (action matches OperationAction::Finish(o) && o.status == OutcomeStatus::Planned),
{
}

/// The mutation is sent only after the plan it carries was recorded as
/// started: `Execute` comes only from the last signal check, which follows
/// either a successful write of the plan's started record, or a reconciled
/// plan that the checkpoint already records or that no checkpoint keeps.
pub proof fn lemma_started_record_precedes_execute(s: OperationState, ev: OperationEvent, next: OperationState, action: OperationAction)
    requires
        operation_step_ok(s, ev, next, action),
    ensures
        action is Execute ==> s.stage is CheckingBeforeExecute,
        next.stage is CheckingBeforeExecute && !(s.stage is CheckingBeforeExecute) ==> (
            (s.stage is RecordingPlan && ev is CheckpointWritten && ev->CheckpointWritten_0 is Ok)
            || (s.stage is CheckingBeforeReconcile && (plan_recorded(s.info.resume, s.stage->CheckingBeforeReconcile_0)
                || !s.info.checkpointed))),
        next.stage is RecordingPlan && !(s.stage is RecordingPlan) ==> (s.stage is CheckingBeforeReconcile
            && (action matches OperationAction::RecordStarted(m) && records_plan(m, s.info, s.stage->CheckingBeforeReconcile_0))),
{
}

/// The mutation was sent and definitively refused.
pub open spec fn definitive_execution_failure(s: OperationState, ev: OperationEvent) -> bool {
    s.stage is Executing && match ev {
        OperationEvent::Executed(Err(e)) => spec_failure_is_definitive(e.code@),
        _ => false,
    }
}

/// A fresh, checkpointed operation failed to prepare.
pub open spec fn fresh_preparation_failure(s: OperationState, ev: OperationEvent) -> bool {
    s.stage is Preparing && !s.info.dry_run && s.info.resume is None && s.info.checkpointed
        && match ev {
            OperationEvent::Prepared(Err(_)) => true,
            _ => false,
        }
}

/// A failure is recorded in the checkpoint only when it is definitive: a
/// mutation refused for good, or a fresh operation whose preparation failed
/// before anything could be sent.
pub proof fn lemma_only_definitive_failures_are_recorded(s: OperationState, ev: OperationEvent, next: OperationState, action: OperationAction)
    requires
        operation_step_ok(s, ev, next, action),
        action is RecordFailed,
    ensures
        definitive_execution_failure(s, ev) || fresh_preparation_failure(s, ev),
{
}

/// A whole run of one operation: `states[i + 1]` and `actions[i]` are
/// what event `events[i]` made of `states[i]`.
pub open spec fn operation_run(states: Seq<OperationState>, events: Seq<OperationEvent>, actions: Seq<OperationAction>) -> bool {
    &&& states.len() == events.len() + 1
    &&& actions.len() == events.len()
    &&& forall|i: int| 0 <= i < events.len() ==> operation_step_ok(#[trigger] states[i], events[i], states[i + 1], actions[i])
}

proof fn lemma_dry_run_prefix(states: Seq<OperationState>, events: Seq<OperationEvent>, actions: Seq<OperationAction>, k: int)
    requires
        operation_run(states, events, actions),
        states[0].info.dry_run,
        states[0].stage is Start,
        0 <= k < states.len(),
    ensures
        states[k].info == states[0].info,
        dry_run_stage(states[k].stage),
    decreases k,
{
    if k > 0 {
        lemma_dry_run_prefix(states, events, actions, k - 1);
        assert(operation_step_ok(states[k - 1], events[k - 1], states[k], actions[k - 1]));
        lemma_dry_run_records_and_sends_nothing(states[k - 1], events[k - 1], states[k], actions[k - 1]);
    }
}

/// Over a whole dry run, whatever happens: no checkpoint record is
/// written, no mutation is sent, and the operation never ends as
/// succeeded.
pub proof fn lemma_dry_run_never_records_executes_or_succeeds(states: Seq<OperationState>, events: Seq<OperationEvent>, actions: Seq<OperationAction>)
    requires
        operation_run(states, events, actions),
        states[0].info.dry_run,
        states[0].stage is Start,
    ensures
        forall|i: int| 0 <= i < actions.len() ==> !(#[trigger] actions[i] is RecordStarted || actions[i] is RecordSucceeded
            || actions[i] is RecordFailed || actions[i] is Execute),
        forall|i: int| 0 <= i < actions.len() ==> (#[trigger] actions[i] matches OperationAction::Finish(o)
            ==> o.status != OutcomeStatus::Succeeded),
{
    assert forall|i: int| 0 <= i < actions.len() implies !(#[trigger] actions[i] is RecordStarted || actions[i] is RecordSucceeded
        || actions[i] is RecordFailed || actions[i] is Execute) && (actions[i] matches OperationAction::Finish(o)
        ==> o.status != OutcomeStatus::Succeeded) by {
        lemma_dry_run_prefix(states, events, actions, i);
        assert(operation_step_ok(states[i], events[i], states[i + 1], actions[i]));
        lemma_dry_run_records_and_sends_nothing(states[i], events[i], states[i + 1], actions[i]);
    }
}

} // verus!
