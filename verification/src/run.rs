use crate::error::PublicError;
use crate::service::{spec_status_api_value, CompletedRun, HarnessRunStatus, RunLeaseState, VersionedHarnessOutput};
use crate::text::{chars_of, owned, push_str, string_of};
use vstd::prelude::*;

verus! {

/// Where the supervision of a run's worktree setup stands: confirming the
/// lease before setup starts, waiting for setup while keeping the lease
/// alive, or confirming the lease once more after setup.
#[derive(PartialEq, Eq, Structural, Clone, Copy, Debug)]
pub enum SetupPhase {
    InitialHeartbeat,
    Setup,
    FinalHeartbeat,
}

/// The supervision state: its phase and the lease last confirmed.
#[derive(Clone, Copy, Debug)]
pub struct SetupState {
    pub phase: SetupPhase,
    pub lease: RunLeaseState,
}

/// How a lease heartbeat ended: confirmed with the server's new lease,
/// failed after its retries, or cut off by the run's deadline.
#[derive(Clone, Copy, Debug)]
pub enum HeartbeatConfirmation {
    Confirmed(RunLeaseState),
    Failed,
    TimedOut,
}

/// What happened while the setup is supervised.
#[derive(Debug)]
pub enum SetupEvent {
    /// The heartbeat that was asked for ended.
    Heartbeat(HeartbeatConfirmation),
    /// The service is shutting down.
    ShutdownRequested,
    /// The worktree setup finished, or failed with this description.
    SetupFinished(Result<(), String>),
    /// The periodic heartbeat is due.
    HeartbeatDue,
    /// The run's deadline passed.
    Deadline,
}

/// What the supervisor does next.
#[derive(Debug)]
pub enum SetupAction {
    /// Confirm the lease with a heartbeat, bounded by the run's deadline.
    SendHeartbeat,
    /// Wait for the next event.
    Wait,
    /// The worktree is ready and the lease freshly confirmed.
    Ready(RunLeaseState),
    /// The run ends with this result without running the harness.
    Terminal(VersionedHarnessOutput),
}

/// The action that ends the run with a failure.
pub open spec fn failure(action: SetupAction, summary: Seq<char>, code: Seq<char>, lease: RunLeaseState) -> bool {
    action matches SetupAction::Terminal(o) && o.status == HarnessRunStatus::Failed && o.summary@ == summary
        && o.lease == lease && (o.failure_code matches Some(c) && c@ == code)
}

/// One step of the worktree setup's supervision.
pub open spec fn setup_step_ok(s: SetupState, ev: SetupEvent, next: SetupState, action: SetupAction) -> bool {
    match s.phase {
        SetupPhase::InitialHeartbeat => match ev {
            SetupEvent::Heartbeat(HeartbeatConfirmation::Confirmed(lease)) =>
                next == SetupState { phase: SetupPhase::Setup, lease } && action is Wait,
            SetupEvent::Heartbeat(HeartbeatConfirmation::Failed) => next == s && failure(action,
                "The agent run stopped because its initial lease heartbeat could not be confirmed."@, "heartbeat_failed"@, s.lease),
            SetupEvent::Heartbeat(HeartbeatConfirmation::TimedOut) => next == s && failure(action,
                "Worktree setup exceeded the configured run timeout before the initial lease could be confirmed."@,
                "worktree_setup_timeout"@, s.lease),
            _ => next == s && action is Wait,
        },
        SetupPhase::Setup => match ev {
            SetupEvent::ShutdownRequested => next == s && (action matches SetupAction::Terminal(o)
                && o.status == HarnessRunStatus::Cancelled && o.lease == s.lease
                && o.summary@ == "The agent service shut down before Codex execution completed."@
                && (o.failure_code matches Some(c) && c@ == "service_shutdown"@)),
            SetupEvent::SetupFinished(Err(description)) => next == s && failure(action,
                "The isolated agent worktree could not be created: "@ + description@, "worktree_setup"@, s.lease),
            SetupEvent::SetupFinished(Ok(())) =>
                next == SetupState { phase: SetupPhase::FinalHeartbeat, lease: s.lease } && action is SendHeartbeat,
            SetupEvent::HeartbeatDue => next == s && action is SendHeartbeat,
            SetupEvent::Heartbeat(HeartbeatConfirmation::Confirmed(lease)) =>
                next == SetupState { phase: SetupPhase::Setup, lease } && action is Wait,
            SetupEvent::Heartbeat(HeartbeatConfirmation::Failed) => next == s && failure(action,
                "The agent run stopped because its lease heartbeat could not be confirmed during worktree setup."@,
                "heartbeat_failed"@, s.lease),
            SetupEvent::Heartbeat(HeartbeatConfirmation::TimedOut) | SetupEvent::Deadline => next == s && failure(action,
                "Creating the isolated agent worktree exceeded the configured run timeout."@, "worktree_setup_timeout"@, s.lease),
        },
        SetupPhase::FinalHeartbeat => match ev {
            SetupEvent::Heartbeat(HeartbeatConfirmation::Confirmed(lease)) =>
                next == SetupState { phase: SetupPhase::FinalHeartbeat, lease } && action == SetupAction::Ready(lease),
            SetupEvent::Heartbeat(HeartbeatConfirmation::Failed) => next == s && failure(action,
                "The agent run stopped because its post-setup lease heartbeat could not be confirmed."@, "heartbeat_failed"@, s.lease),
            SetupEvent::Heartbeat(HeartbeatConfirmation::TimedOut) => next == s && failure(action,
                "Worktree setup exceeded the configured run timeout before its final lease confirmation."@,
                "worktree_setup_timeout"@, s.lease),
            _ => next == s && action is Wait,
        },
    }
}

/// Supervision starts by confirming the claimed lease before any setup.
pub fn worktree_setup_start(initial_lease: RunLeaseState) -> (r: (SetupState, SetupAction))
    ensures
        r.0 == (SetupState { phase: SetupPhase::InitialHeartbeat, lease: initial_lease }),
        r.1 is SendHeartbeat,
{
    (SetupState { phase: SetupPhase::InitialHeartbeat, lease: initial_lease }, SetupAction::SendHeartbeat)
}

/// Decides the supervisor's next state and action from an event: the
/// lease is confirmed before setup, kept alive while setup runs and
/// confirmed again after it; a shutdown, a failed setup, a lost heartbeat
/// or the run's deadline end the run with the matching result.
pub fn worktree_setup_step(s: &SetupState, ev: SetupEvent) -> (r: (SetupState, SetupAction))
    ensures
        setup_step_ok(*s, ev, r.0, r.1),
{
    match s.phase {
        SetupPhase::InitialHeartbeat => match ev {
            SetupEvent::Heartbeat(HeartbeatConfirmation::Confirmed(lease)) =>
                (SetupState { phase: SetupPhase::Setup, lease }, SetupAction::Wait),
            SetupEvent::Heartbeat(HeartbeatConfirmation::Failed) => (*s, SetupAction::Terminal(VersionedHarnessOutput::failed(
                "The agent run stopped because its initial lease heartbeat could not be confirmed.", "heartbeat_failed", s.lease))),
            SetupEvent::Heartbeat(HeartbeatConfirmation::TimedOut) => (*s, SetupAction::Terminal(VersionedHarnessOutput::failed(
                "Worktree setup exceeded the configured run timeout before the initial lease could be confirmed.",
                "worktree_setup_timeout", s.lease))),
            _ => (*s, SetupAction::Wait),
        },
        SetupPhase::Setup => match ev {
            SetupEvent::ShutdownRequested => (*s, SetupAction::Terminal(VersionedHarnessOutput::cancelled(s.lease))),
            SetupEvent::SetupFinished(Err(description)) => {
                let mut summary = chars_of("The isolated agent worktree could not be created: ");
                push_str(&mut summary, description.as_str());
                let summary = string_of(&summary);
                (*s, SetupAction::Terminal(VersionedHarnessOutput::failed(summary.as_str(), "worktree_setup", s.lease)))
            },
            SetupEvent::SetupFinished(Ok(())) =>
                (SetupState { phase: SetupPhase::FinalHeartbeat, lease: s.lease }, SetupAction::SendHeartbeat),
            SetupEvent::HeartbeatDue => (*s, SetupAction::SendHeartbeat),
            SetupEvent::Heartbeat(HeartbeatConfirmation::Confirmed(lease)) =>
                (SetupState { phase: SetupPhase::Setup, lease }, SetupAction::Wait),
            SetupEvent::Heartbeat(HeartbeatConfirmation::Failed) => (*s, SetupAction::Terminal(VersionedHarnessOutput::failed(
                "The agent run stopped because its lease heartbeat could not be confirmed during worktree setup.",
                "heartbeat_failed", s.lease))),
            SetupEvent::Heartbeat(HeartbeatConfirmation::TimedOut) | SetupEvent::Deadline =>
                (*s, SetupAction::Terminal(VersionedHarnessOutput::failed(
                    "Creating the isolated agent worktree exceeded the configured run timeout.", "worktree_setup_timeout", s.lease))),
        },
        SetupPhase::FinalHeartbeat => match ev {
            SetupEvent::Heartbeat(HeartbeatConfirmation::Confirmed(lease)) =>
                (SetupState { phase: SetupPhase::FinalHeartbeat, lease }, SetupAction::Ready(lease)),
            SetupEvent::Heartbeat(HeartbeatConfirmation::Failed) => (*s, SetupAction::Terminal(VersionedHarnessOutput::failed(
                "The agent run stopped because its post-setup lease heartbeat could not be confirmed.", "heartbeat_failed", s.lease))),
            SetupEvent::Heartbeat(HeartbeatConfirmation::TimedOut) => (*s, SetupAction::Terminal(VersionedHarnessOutput::failed(
                "Worktree setup exceeded the configured run timeout before its final lease confirmation.",
                "worktree_setup_timeout", s.lease))),
            _ => (*s, SetupAction::Wait),
        },
    }
}

/// What the agent reports to the server when a run finishes: the run's
/// status, its failure code, and the status recorded locally for the
/// completed run.
#[derive(Debug)]
pub struct RunReport {
    pub status: &'static str,
    pub failure_code: Option<String>,
    pub completed_status: String,
}

/// A claim whose grant material did not authenticate fails without
/// running anything: the server hears `failed` with
/// `grant_authentication`, and the run is recorded as failed with the
/// error's code.
pub fn grant_rejection_report(error: &PublicError) -> (r: RunReport)
    ensures
        r.status@ == "failed"@,
        r.failure_code matches Some(c) && c@ == "grant_authentication"@,
        r.completed_status@ == "failed ("@ + error.code@ + ")"@,
{
    let mut completed = chars_of("failed (");
    push_str(&mut completed, error.code.as_str());
    push_str(&mut completed, ")");
    RunReport { status: "failed", failure_code: Some(owned("grant_authentication")), completed_status: string_of(&completed) }
}

/// A run that went through worktree setup (and the harness, when setup
/// succeeded) reports its result's status, the failure code its result
/// carries (none on success, `harness_failed` when a failure recorded
/// none), and is recorded with that status.
pub fn execution_report(execution: &VersionedHarnessOutput) -> (r: RunReport)
    ensures
        r.status@ == spec_status_api_value(execution.status),
        execution.status == HarnessRunStatus::Succeeded ==> r.failure_code is None,
        execution.status != HarnessRunStatus::Succeeded ==> (r.failure_code matches Some(c) && c@ == (match execution.failure_code {
            Some(f) => f@,
            None => "harness_failed"@,
        })),
        r.completed_status@ == spec_status_api_value(execution.status),
{
    let status = execution.status.as_api_value();
    RunReport { status, failure_code: execution.reported_failure_code(), completed_status: owned(status) }
}

/// How a claimed run went: its grant material was refused before anything
/// ran, or the run went through setup (and the harness, when setup
/// succeeded) to this result.
#[derive(Debug)]
pub enum ClaimProgress {
    GrantRejected(PublicError),
    Executed(VersionedHarnessOutput),
}

/// The result a run starts from: cancelled with the claimed lease when the
/// service is already shutting down, otherwise none, and the worktree setup
/// is supervised.
pub fn execution_before_setup(shutdown_requested: bool, initial_lease: RunLeaseState) -> (r: Option<VersionedHarnessOutput>)
    ensures
        shutdown_requested <==> r is Some,
        r matches Some(o) ==> o.status == HarnessRunStatus::Cancelled && o.lease == initial_lease
            && o.summary@ == "The agent service shut down before Codex execution completed."@
            && (o.failure_code matches Some(c) && c@ == "service_shutdown"@),
{
    if shutdown_requested {
        Some(VersionedHarnessOutput::cancelled(initial_lease))
    } else {
        None
    }
}

/// The report for a claimed run: a refused grant reports `failed` with
/// `grant_authentication` and is recorded as `failed (code)`; an executed
/// run reports its result's status and failure code.
pub fn claim_outcome(progress: &ClaimProgress) -> (r: RunReport)
    ensures
        match progress {
            ClaimProgress::GrantRejected(error) => {
                &&& r.status@ == "failed"@
                &&& r.failure_code matches Some(c) && c@ == "grant_authentication"@
                &&& r.completed_status@ == "failed ("@ + error.code@ + ")"@
            },
            ClaimProgress::Executed(execution) => {
                &&& r.status@ == spec_status_api_value(execution.status)
                &&& execution.status == HarnessRunStatus::Succeeded ==> r.failure_code is None
                &&& execution.status != HarnessRunStatus::Succeeded ==> (r.failure_code matches Some(c) && c@ == (
                    match execution.failure_code {
                        Some(f) => f@,
                        None => "harness_failed"@,
                    }))
                &&& r.completed_status@ == spec_status_api_value(execution.status)
            },
        },
{
    match progress {
        ClaimProgress::GrantRejected(error) => grant_rejection_report(error),
        ClaimProgress::Executed(execution) => execution_report(execution),
    }
}

/// The completed run as the poll reports it.
pub fn completed_run(agent_id: u128, run_id: u128, report: &RunReport, worktree: Option<String>) -> (c: CompletedRun)
    ensures
        c.agent_id == agent_id,
        c.run_id == run_id,
        c.status@ == report.completed_status@,
        c.worktree == worktree,
{
    CompletedRun { agent_id, run_id, status: owned(report.completed_status.as_str()), worktree }
}

} // verus!
