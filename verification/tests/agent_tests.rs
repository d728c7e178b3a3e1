use sealtask::agents::local_agent_status_label;
use sealtask::agent::{
    after_heartbeat, after_poll, completed_run_line, finish_retry_delay, harness_outcome, heartbeat_retry_delay,
    pending_enrollment_expired, poll_admission, poll_failure_followup, poll_failure_line, shutdown_result,
    AgentLoopStep, HeartbeatResult, HeartbeatStep, IdentityRetries, PollAdmission, UnconfirmedFinishes,
};
use sealtask::auth::{
    print_logged_in_auth_status, print_logged_out_auth_status, simple_persisted_bootstrap_status, ApiUrlMismatch,
    LoggedInStatus, SessionState,
};
use sealtask::error::PublicError;
use sealtask::harness::{HarnessOutput, PlaintextOutputGuard};
use sealtask::service::{CompletedRun, HarnessRunStatus, LocalAgentStatus, PollFailure, PollOutcome, RunLeaseState};

fn outcome(configured: usize) -> PollOutcome {
    PollOutcome { configured_identities: configured, active_identities: 0, completed_runs: Vec::new(), failures: Vec::new(), unconfirmed_terminal_runs: 0 }
}

fn lease() -> RunLeaseState {
    RunLeaseState { version: 3, lease_expires_at_ms: 1_700_000_060_000 }
}

#[test]
fn the_run_loop_stops_fails_or_waits_after_each_poll() {
    let mut pending = outcome(1);
    pending.unconfirmed_terminal_runs = 2;
    assert!(matches!(after_poll(&pending, true, false), AgentLoopStep::Stop { unconfirmed_terminal_runs: true }));
    match after_poll(&outcome(0), false, false) {
        AgentLoopStep::Fail(error) => assert_eq!(error.to_string(), "no local agent identities; register one with the sealtask CLI"),
        _ => panic!("no identities is an error"),
    }
    assert!(matches!(after_poll(&outcome(1), false, true), AgentLoopStep::Finish(Ok(()))));
    assert!(matches!(after_poll(&outcome(1), false, false), AgentLoopStep::Sleep));
    assert!(shutdown_result(Ok(()), false).is_ok());
    assert_eq!(shutdown_result(Ok(()), true).expect_err("unconfirmed").code(), "unexpected");
}

#[test]
fn run_reports_name_agent_run_and_worktree() {
    let run = CompletedRun { agent_id: 1, run_id: 2, status: "succeeded".to_string(), worktree: Some("/w/1".to_string()) };
    assert_eq!(
        completed_run_line(&run),
        "sealtask-agent: agent=00000000-0000-0000-0000-000000000001 run=00000000-0000-0000-0000-000000000002 status=succeeded worktree=/w/1"
    );
    let failure = PollFailure { agent_id: 1, message: "denied".to_string() };
    assert_eq!(poll_failure_line(&failure), "sealtask-agent: agent=00000000-0000-0000-0000-000000000001 poll failed: denied");
}

#[test]
fn failed_identities_back_off_until_cleared() {
    let mut retries = IdentityRetries::new();
    let now: u64 = 1_000_000;
    assert!(retries.identity_retry_is_due(7, now));
    retries.defer_identity_retry(7, LocalAgentStatus::Active, None, now);
    assert!(!retries.identity_retry_is_due(7, now));
    assert!(retries.identity_retry_is_due(8, now));
    let first = retries.get(7).expect("deferred");
    assert_eq!(first.failures, 1);
    assert!(first.retry_at_ms >= now + 60_000);
    retries.defer_identity_retry(7, LocalAgentStatus::Active, Some(10_000_000), now);
    let second = retries.get(7).expect("deferred");
    assert_eq!(second.failures, 2);
    assert!(second.retry_at_ms >= now + 10_000_000);
    retries.clear_identity_retry(7);
    assert!(retries.identity_retry_is_due(7, now));
}

#[test]
fn polling_admits_one_fresh_authentication_per_round() {
    assert_eq!(poll_admission(LocalAgentStatus::Active, true, 5), PollAdmission::Poll { uncached_auth: false });
    assert_eq!(poll_admission(LocalAgentStatus::Active, false, 0), PollAdmission::Poll { uncached_auth: true });
    assert_eq!(poll_admission(LocalAgentStatus::Pending, false, 1), PollAdmission::Skip);
    assert_eq!(poll_admission(LocalAgentStatus::Revoked, true, 0), PollAdmission::Skip);
    assert_eq!(poll_failure_followup(Some(401), false, true), (true, true));
    assert_eq!(poll_failure_followup(Some(429), false, true), (false, true));
    assert_eq!(poll_failure_followup(Some(500), true, false), (false, true));
    assert_eq!(poll_failure_followup(Some(500), true, true), (false, false));
    assert!(pending_enrollment_expired(LocalAgentStatus::Pending, Some(10), 10));
    assert!(!pending_enrollment_expired(LocalAgentStatus::Active, Some(10), 10));
    assert!(!pending_enrollment_expired(LocalAgentStatus::Pending, None, 10));
}

#[test]
fn heartbeats_and_completions_retry_only_within_the_lease() {
    let now: i64 = 1_700_000_000_000;
    let transient = PublicError::rate_limited_with_retry_after("slow down".to_string(), 2_000);
    assert_eq!(heartbeat_retry_delay(1, &transient, 9, now + 60_000, now), Some(2_000));
    assert_eq!(heartbeat_retry_delay(3, &transient, 9, now + 60_000, now), None);
    assert_eq!(heartbeat_retry_delay(1, &transient, 9, now + 2_500, now), None);
    let permanent = PublicError::validation("bad".to_string());
    assert_eq!(heartbeat_retry_delay(1, &permanent, 9, now + 60_000, now), None);
    assert_eq!(finish_retry_delay(0, &permanent, 9, now + 60_000, now), (0, None));
    assert_eq!(finish_retry_delay(0, &transient, 9, now + 60_000, now), (1, Some(2_000)));
}

#[test]
fn heartbeat_failures_end_the_run_under_the_last_lease() {
    let renewed = RunLeaseState { version: 4, lease_expires_at_ms: 1_700_000_120_000 };
    assert!(matches!(after_heartbeat(HeartbeatResult::Confirmed(renewed), lease()), HeartbeatStep::Continue(l) if l.version == 4));
    match after_heartbeat(HeartbeatResult::Failed, lease()) {
        HeartbeatStep::Finish(output) => {
            assert_eq!(output.status, HarnessRunStatus::Failed);
            assert_eq!(output.failure_code.as_deref(), Some("heartbeat_failed"));
            assert_eq!(output.lease.version, 3);
        }
        HeartbeatStep::Continue(_) => panic!("a failed heartbeat ends the run"),
    }
    match after_heartbeat(HeartbeatResult::TimedOut, lease()) {
        HeartbeatStep::Finish(output) => assert_eq!(output.failure_code.as_deref(), Some("run_timeout")),
        HeartbeatStep::Continue(_) => panic!("a timeout ends the run"),
    }
    let crashed = harness_outcome(None, lease());
    assert_eq!(crashed.failure_code.as_deref(), Some("harness_error"));
    let finished = harness_outcome(Some(HarnessOutput { succeeded: true, summary: "done".to_string(), failure_code: None }), lease());
    assert_eq!(finished.status, HarnessRunStatus::Succeeded);
    assert_eq!(finished.summary, "done");
}

#[test]
fn unconfirmed_finishes_age_out_after_their_lease() {
    let mut finishes = UnconfirmedFinishes { entries: vec![(1, 100), (2, 300)] };
    assert_eq!(finishes.active_unconfirmed_terminal_run_count(200), 1);
    assert_eq!(finishes.entries, vec![(2, 300)]);
    assert_eq!(finishes.active_unconfirmed_terminal_run_count(300), 0);
}

#[test]
fn auth_status_lines_describe_the_session() {
    let status = LoggedInStatus {
        email: "a@example.test".to_string(),
        api_url: "https://api.example.test".to_string(),
        user_id: 1,
        access_token_expires_display: "2030-01-01 00:00:00 UTC".to_string(),
        refresh_token_expires_display: "2030-02-01 00:00:00 UTC".to_string(),
        session_state: SessionState::AccessExpired,
        api_url_mismatch: Some(ApiUrlMismatch { stored_api_url: "https://old.example.test".to_string(), current_api_url: "https://api.example.test".to_string() }),
        unlock_active: true,
        unlock_expires_at_unix: Some(42),
        persisted_bootstrap: simple_persisted_bootstrap_status("available"),
    };
    let lines = print_logged_in_auth_status(&status);
    assert_eq!(lines[0], "Logged in as: a@example.test");
    assert_eq!(lines[2], "User ID: 00000000-0000-0000-0000-000000000001");
    assert_eq!(lines[5], "\nNote: Stored credentials are for a different API URL.");
    assert_eq!(lines[8], "\nNote: Access token has expired but will be refreshed automatically.");
    assert_eq!(lines[9], "\nUnlock daemon: active until unix 42");
    assert_eq!(lines[10], "Persisted bootstrap: available");
    let out = print_logged_out_auth_status("/home/u/.sealtask/credentials.json", false, None, &simple_persisted_bootstrap_status("missing"));
    assert_eq!(out, vec![
        "Not logged in.".to_string(),
        "Credentials would be stored at: /home/u/.sealtask/credentials.json".to_string(),
        "Unlock daemon: inactive".to_string(),
        "Persisted bootstrap: missing".to_string(),
    ]);
}

#[test]
fn plaintext_guard_is_armed_until_disarmed() {
    let mut guard = PlaintextOutputGuard::new("/tmp/run/final-message.txt".to_string());
    assert!(guard.armed);
    guard.disarm();
    assert!(!guard.armed);
    assert_eq!(guard.path, "/tmp/run/final-message.txt");
}

#[test]
fn local_agent_statuses_have_their_labels() {
    assert_eq!(local_agent_status_label(&LocalAgentStatus::Pending), "pending");
    assert_eq!(local_agent_status_label(&LocalAgentStatus::Expired), "expired");
    assert_eq!(local_agent_status_label(&LocalAgentStatus::Active), "active");
    assert_eq!(local_agent_status_label(&LocalAgentStatus::Revoked), "revoked");
}
