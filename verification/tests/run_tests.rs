use sealtask::error::PublicError;
use sealtask::run::{claim_outcome, execution_before_setup, ClaimProgress};
use sealtask::run::{
    completed_run, execution_report, grant_rejection_report, worktree_setup_start, worktree_setup_step, HeartbeatConfirmation,
    SetupAction, SetupEvent, SetupPhase,
};
use sealtask::service::{HarnessRunStatus, RunLeaseState, VersionedHarnessOutput};

fn lease(version: i64) -> RunLeaseState {
    RunLeaseState { version, lease_expires_at_ms: 1_000 + version }
}

#[test]
fn worktree_setup_confirms_the_lease_before_and_after_setup() {
    let (state, action) = worktree_setup_start(lease(1));
    assert!(matches!(action, SetupAction::SendHeartbeat));
    let (state, action) = worktree_setup_step(&state, SetupEvent::Heartbeat(HeartbeatConfirmation::Confirmed(lease(2))));
    assert_eq!(state.phase, SetupPhase::Setup);
    assert!(matches!(action, SetupAction::Wait));
    let (state, action) = worktree_setup_step(&state, SetupEvent::HeartbeatDue);
    assert!(matches!(action, SetupAction::SendHeartbeat));
    let (state, _) = worktree_setup_step(&state, SetupEvent::Heartbeat(HeartbeatConfirmation::Confirmed(lease(3))));
    assert_eq!(state.lease.version, 3);
    let (state, action) = worktree_setup_step(&state, SetupEvent::SetupFinished(Ok(())));
    assert_eq!(state.phase, SetupPhase::FinalHeartbeat);
    assert!(matches!(action, SetupAction::SendHeartbeat));
    let (_, action) = worktree_setup_step(&state, SetupEvent::Heartbeat(HeartbeatConfirmation::Confirmed(lease(4))));
    assert!(matches!(action, SetupAction::Ready(l) if l.version == 4));
}

#[test]
fn worktree_setup_ends_the_run_on_failures_timeouts_and_shutdown() {
    let (start, _) = worktree_setup_start(lease(1));
    match worktree_setup_step(&start, SetupEvent::Heartbeat(HeartbeatConfirmation::Failed)).1 {
        SetupAction::Terminal(o) => {
            assert_eq!(o.failure_code.as_deref(), Some("heartbeat_failed"));
            assert_eq!(o.summary, "The agent run stopped because its initial lease heartbeat could not be confirmed.");
        }
        other => panic!("unexpected {other:?}"),
    }
    let (setup, _) = worktree_setup_step(&start, SetupEvent::Heartbeat(HeartbeatConfirmation::Confirmed(lease(2))));
    match worktree_setup_step(&setup, SetupEvent::SetupFinished(Err("git failed".to_string()))).1 {
        SetupAction::Terminal(o) => {
            assert_eq!(o.failure_code.as_deref(), Some("worktree_setup"));
            assert_eq!(o.summary, "The isolated agent worktree could not be created: git failed");
            assert_eq!(o.lease.version, 2);
        }
        other => panic!("unexpected {other:?}"),
    }
    match worktree_setup_step(&setup, SetupEvent::Deadline).1 {
        SetupAction::Terminal(o) => assert_eq!(o.failure_code.as_deref(), Some("worktree_setup_timeout")),
        other => panic!("unexpected {other:?}"),
    }
    match worktree_setup_step(&setup, SetupEvent::ShutdownRequested).1 {
        SetupAction::Terminal(o) => assert_eq!(o.status, HarnessRunStatus::Cancelled),
        other => panic!("unexpected {other:?}"),
    }
}

#[test]
fn run_reports_carry_grant_and_harness_failure_codes() {
    let rejected = grant_rejection_report(&PublicError::crypto("bad grant".to_string()));
    assert_eq!(rejected.status, "failed");
    assert_eq!(rejected.failure_code.as_deref(), Some("grant_authentication"));
    assert_eq!(rejected.completed_status, "failed (crypto)");
    let run = completed_run(1, 2, &rejected, None);
    assert_eq!(run.status, "failed (crypto)");
    assert!(run.worktree.is_none());

    let failed = VersionedHarnessOutput { status: HarnessRunStatus::Failed, summary: String::new(), failure_code: None, lease: lease(1) };
    let report = execution_report(&failed);
    assert_eq!(report.status, "failed");
    assert_eq!(report.failure_code.as_deref(), Some("harness_failed"));
    let succeeded = VersionedHarnessOutput { status: HarnessRunStatus::Succeeded, summary: String::new(), failure_code: None, lease: lease(1) };
    let report = execution_report(&succeeded);
    assert_eq!((report.status, report.failure_code, report.completed_status.as_str()), ("succeeded", None, "succeeded"));
}

#[test]
fn claim_outcomes_follow_the_grant_then_the_execution() {
    let rejected = claim_outcome(&ClaimProgress::GrantRejected(PublicError::crypto("bad grant".to_string())));
    assert_eq!(rejected.status, "failed");
    assert_eq!(rejected.failure_code.as_deref(), Some("grant_authentication"));
    assert_eq!(rejected.completed_status, "failed (crypto)");

    let cancelled = execution_before_setup(true, lease(3)).expect("shutdown before setup");
    assert_eq!(cancelled.status, HarnessRunStatus::Cancelled);
    assert_eq!(cancelled.lease.version, 3);
    assert!(execution_before_setup(false, lease(3)).is_none());
    let report = claim_outcome(&ClaimProgress::Executed(cancelled));
    assert_eq!(report.status, "cancelled");
    assert_eq!(report.failure_code.as_deref(), Some("service_shutdown"));
}
