use sealtask::error::PublicError;
use sealtask::service::{
    apply_session_refresh, session_freshness, validate_revision, HarnessRunStatus, RunLeaseState, SessionFreshness,
    SessionTimers, VersionedHarnessOutput,
};
use sealtask::harness::codex_run_output;
use sealtask::harness::{compose_harness_summary, sanitized_harness_diagnostic, CODEX_SUBPROCESS_ENV_ALLOWLIST, MAX_HARNESS_DIAGNOSTIC_BYTES};
use sealtask::service::{
    agent_session_deadlines, exponential_backoff, git_object_id_length, identity_poll_priority,
    identity_retry_delay, retry_fits_before_lease, rotate_uncached_auth_candidates, run_retry_delay,
    token_is_outside_expiry_margin, validate_once_outcome, AgentIdentity, CompletedRun, LocalAgentStatus,
    PollFailure, PollOutcome, TOKEN_EXPIRY_SAFETY_MARGIN_MS,
};

fn outcome() -> PollOutcome {
    PollOutcome {
        configured_identities: 1,
        active_identities: 0,
        completed_runs: Vec::new(),
        failures: Vec::new(),
        unconfirmed_terminal_runs: 0,
    }
}

fn run(status: &str) -> CompletedRun {
    CompletedRun { agent_id: 11, run_id: 12, status: status.to_string(), worktree: None }
}

#[test]
fn once_outcome_accepts_success_and_no_assignment() {
    validate_once_outcome(&outcome()).expect("no assignment is a successful poll");
    let mut with_run = outcome();
    with_run.completed_runs.push(run("succeeded"));
    validate_once_outcome(&with_run).expect("a successful run is a successful poll");
}

#[test]
fn once_outcome_rejects_identity_poll_failures() {
    let mut failed = outcome();
    failed.failures.push(PollFailure { agent_id: 3, message: "authentication failed".to_string() });
    let error = validate_once_outcome(&failed).expect_err("poll failures must make one-shot execution fail");
    assert_eq!(error.code(), "unexpected");
    assert!(error.to_string().contains("1 agent identity poll(s) failed"));
}

#[test]
fn once_outcome_rejects_unsuccessful_and_unconfirmed_runs() {
    for status in ["failed", "failed (grant_authentication)", "cancelled"] {
        let mut o = outcome();
        o.completed_runs.push(run(status));
        let error = validate_once_outcome(&o).expect_err("non-successful runs must make one-shot execution fail");
        assert!(error.to_string().contains("completed unsuccessfully"));
    }
    let mut o = outcome();
    o.unconfirmed_terminal_runs = 1;
    let error = validate_once_outcome(&o).expect_err("unconfirmed terminal results must make one-shot execution fail");
    assert!(error.to_string().contains("could not be confirmed"));
}

#[test]
fn token_expiry_margin_forces_refresh_at_and_inside_the_boundary() {
    let now: u64 = 1_000_000;
    assert!(token_is_outside_expiry_margin(now + TOKEN_EXPIRY_SAFETY_MARGIN_MS + 1, now));
    assert!(!token_is_outside_expiry_margin(now + TOKEN_EXPIRY_SAFETY_MARGIN_MS, now));
    assert!(!token_is_outside_expiry_margin(now + TOKEN_EXPIRY_SAFETY_MARGIN_MS - 1, now));
}

#[test]
fn token_deadlines_include_the_mint_request_round_trip() {
    let request_started_at: u64 = 5_000_000;
    let response_received_at = request_started_at + 10_000;
    let (refresh_at, expires_at) = agent_session_deadlines(request_started_at, response_received_at, 60, 7)
        .expect("token with sufficient remaining lifetime");
    assert_eq!(expires_at, request_started_at + 60_000);
    assert_eq!(expires_at - response_received_at, 50_000);
    assert!(refresh_at < expires_at);
}

#[test]
fn token_response_inside_the_expiry_margin_is_rejected() {
    let request_started_at: u64 = 5_000_000;
    let response_received_at = request_started_at + 55_000;
    let error = agent_session_deadlines(request_started_at, response_received_at, 60, 8)
        .expect_err("near-expired token response must be rejected");
    assert_eq!(error.code(), "request_timeout");
}

#[test]
fn identity_backoff_prioritizes_active_agents_and_rotates_within_status() {
    assert_eq!(exponential_backoff(60_000, 600_000, 1), 60_000);
    assert_eq!(exponential_backoff(60_000, 600_000, 5), 600_000);
    assert!(identity_retry_delay(60_000, 1, Some(90_000), 1) >= 90_000);

    let identity = |id: u128, status: LocalAgentStatus| AgentIdentity { agent_id: id, status, created_at_ms: 1_700_000_000_000 };
    let cached = identity(1, LocalAgentStatus::Active);
    let stale_a = identity(2, LocalAgentStatus::Active);
    let stale_b = identity(3, LocalAgentStatus::Active);
    let pending = identity(4, LocalAgentStatus::Pending);
    let expired = identity(5, LocalAgentStatus::Expired);
    let revoked = identity(6, LocalAgentStatus::Revoked);
    let sessions = vec![cached.agent_id];
    let mut candidates = vec![expired, pending, stale_b, revoked, cached, stale_a];
    candidates.sort_by_key(|identity| identity_poll_priority(identity, &sessions));
    rotate_uncached_auth_candidates(&mut candidates, &sessions, Some(2));
    assert_eq!(
        candidates.iter().map(|identity| identity.agent_id).collect::<Vec<_>>(),
        vec![1, 3, 2, 4, 5, 6],
        "healthy identities precede enrollment recovery and rotation stays in its bucket"
    );
}

#[test]
fn run_retry_delay_honors_server_backoff_and_stops_before_lease_expiry() {
    let retry_after: u64 = 17_000;
    let delay = run_retry_delay(1_000, 1, Some(retry_after), 7);
    assert_eq!(delay, retry_after);
    let now: i64 = 1_700_000_000_000;
    assert!(retry_fits_before_lease(delay, now + 30_000, now));
    assert!(!retry_fits_before_lease(delay, now + 10_000, now));
}

#[test]
fn git_object_formats_select_the_correct_revision_length() {
    assert_eq!(git_object_id_length("sha1").ok(), Some(40));
    assert_eq!(git_object_id_length("sha256").ok(), Some(64));
    assert!(git_object_id_length("unknown").is_err());
}

#[test]
fn child_shell_environment_is_explicitly_allowlisted() {
    assert!(CODEX_SUBPROCESS_ENV_ALLOWLIST.contains("PATH"));
    assert!(!CODEX_SUBPROCESS_ENV_ALLOWLIST.contains("SEALTASK"));
    assert!(!CODEX_SUBPROCESS_ENV_ALLOWLIST.contains("TOKEN"));
}

#[test]
fn failed_harness_summary_includes_only_sanitized_bounded_diagnostics() {
    let mut stderr = b"discarded-prefix".to_vec();
    stderr.extend(std::iter::repeat_n(b'x', MAX_HARNESS_DIAGNOSTIC_BYTES + 32));
    stderr.extend_from_slice("\nuseful failure\x1b[31m\u{202e}\r\n".as_bytes());

    let summary = compose_harness_summary(false, String::new(), b"less useful stdout", &stderr);

    assert!(summary.contains("Codex stderr (sanitized, bounded tail):"));
    assert!(summary.contains("useful failure"));
    assert!(!summary.contains("discarded-prefix"));
    assert!(!summary.contains("less useful stdout"));
    assert!(!summary.contains('\x1b'));
    assert!(!summary.contains('\u{202e}'));
}

#[test]
fn backoff_grows_with_failures_and_stays_bounded() {
    let mut previous = 0;
    for failures in 0..40u32 {
        let delay = exponential_backoff(1_000, 30_000, failures);
        assert!(delay >= previous);
        assert!(delay <= 30_000);
        previous = delay;
    }
    assert_eq!(exponential_backoff(1_000, 30_000, 3), 4_000);
}

#[test]
fn rotation_only_reorders_candidates() {
    let identity = |id: u128| AgentIdentity { agent_id: id, status: LocalAgentStatus::Pending, created_at_ms: 0 };
    let mut candidates = vec![identity(1), identity(2), identity(3), identity(4)];
    rotate_uncached_auth_candidates(&mut candidates, &Vec::new(), Some(2));
    let mut ids: Vec<u128> = candidates.iter().map(|c| c.agent_id).collect();
    assert_eq!(ids, vec![3, 4, 1, 2]);
    ids.sort();
    assert_eq!(ids, vec![1, 2, 3, 4]);
}

#[test]
fn invalid_utf8_diagnostics_are_decoded_lossily() {
    let diagnostic = sanitized_harness_diagnostic(&[b'o', b'k', 0xff, b'!']).expect("visible text");
    assert_eq!(diagnostic, "ok\u{fffd}!");
}

#[test]
fn retryable_refresh_keeps_a_valid_token_until_the_server_backoff_ends() {
    let now: u64 = 1_000_000;
    let mut session = SessionTimers {
        refresh_at_ms: now - 1_000,
        expires_at_ms: now + 10_000,
        refresh_failures: 0,
        refresh_retry_not_before_ms: None,
    };
    assert!(matches!(session_freshness(&mut session, now), SessionFreshness::Refresh));
    let throttled = PublicError::rate_limited_with_retry_after("slow down".to_string(), 20_000);
    apply_session_refresh(&mut session, Err(throttled), now).expect("old token remains usable");
    assert_eq!(session.refresh_failures, 1);
    assert_eq!(session.expires_at_ms, now + 10_000);
    assert_eq!(session.refresh_at_ms, now + 20_000);
    assert!(session.refresh_at_ms > session.expires_at_ms);
    assert_eq!(session.refresh_retry_not_before_ms, Some(session.refresh_at_ms));
    assert!(matches!(session_freshness(&mut session, now + 100), SessionFreshness::Current));
}

#[test]
fn refresh_backoff_inside_the_expiry_margin_fails_with_the_remaining_delay() {
    let now: u64 = 1_000_000;
    let mut session = SessionTimers {
        refresh_at_ms: now + 20_000,
        expires_at_ms: now + 5_000,
        refresh_failures: 1,
        refresh_retry_not_before_ms: Some(now + 20_000),
    };
    match session_freshness(&mut session, now) {
        SessionFreshness::Deferred(error) => {
            assert_eq!(error.code, "rate_limited");
            assert_eq!(error.retry_after_ms, Some(20_000));
        }
        other => panic!("expected a deferred refresh, got {other:?}"),
    }
}

#[test]
fn a_non_retryable_refresh_failure_is_returned_unchanged() {
    let before = SessionTimers { refresh_at_ms: 5, expires_at_ms: 100_000, refresh_failures: 2, refresh_retry_not_before_ms: None };
    let mut session = before;
    let error = apply_session_refresh(&mut session, Err(PublicError::validation("bad grant".to_string())), 10)
        .expect_err("validation failure");
    assert_eq!(error.message, "bad grant");
    assert_eq!(session.refresh_failures, 2);
    assert_eq!(session.refresh_at_ms, 5);
}

#[test]
fn run_statuses_report_their_failure_codes() {
    let lease = RunLeaseState { version: 1, lease_expires_at_ms: 10 };
    assert_eq!(HarnessRunStatus::Succeeded.as_api_value(), "succeeded");
    assert_eq!(HarnessRunStatus::Failed.as_api_value(), "failed");
    assert_eq!(HarnessRunStatus::Cancelled.as_api_value(), "cancelled");
    let cancelled = VersionedHarnessOutput::cancelled(lease);
    assert_eq!(cancelled.reported_failure_code().as_deref(), Some("service_shutdown"));
    let failed = VersionedHarnessOutput { status: HarnessRunStatus::Failed, summary: String::new(), failure_code: None, lease };
    assert_eq!(failed.reported_failure_code().as_deref(), Some("harness_failed"));
    let succeeded = VersionedHarnessOutput { status: HarnessRunStatus::Succeeded, summary: String::new(), failure_code: Some("x".to_string()), lease };
    assert_eq!(succeeded.reported_failure_code(), None);
}

#[test]
fn revisions_must_match_the_object_format_length() {
    let sha1 = "0123456789abcdef0123456789ABCDEF01234567";
    assert_eq!(validate_revision(&format!("  {sha1}\n"), 40).expect("sha1 revision"), sha1);
    let error = validate_revision(sha1, 64).expect_err("wrong length");
    assert_eq!(error.message, "git returned an invalid source revision");
    let error = validate_revision("0123456789abcdef0123456789abcdef0123456g", 40).expect_err("not hex");
    assert_eq!(error.code, "unexpected");
}

#[test]
fn harness_diagnostics_are_trimmed_and_free_of_control_characters() {
    assert_eq!(sanitized_harness_diagnostic(b" \r\n\t "), None);
    let diagnostic = sanitized_harness_diagnostic("  a\r\n\x1b[31mb\u{202e}  \n".as_bytes()).expect("visible text");
    assert_eq!(diagnostic, "a\n\u{fffd}[31mb\u{fffd}");
    assert_eq!(diagnostic, diagnostic.trim());
    assert!(!diagnostic.contains('\r'));
    let mut long = vec![b'x'; MAX_HARNESS_DIAGNOSTIC_BYTES];
    long.splice(0..0, b"head ".iter().copied());
    assert_eq!(sanitized_harness_diagnostic(&long), sanitized_harness_diagnostic(&long[long.len() - MAX_HARNESS_DIAGNOSTIC_BYTES..]));
}

#[test]
fn a_failed_codex_exit_is_reported_as_codex_exit() {
    let failed = codex_run_output(false, "done".to_string(), b"", b"boom");
    assert!(!failed.succeeded);
    assert_eq!(failed.failure_code.as_deref(), Some("codex_exit"));
    assert!(failed.summary.starts_with("done\n\nCodex stderr"));
    let ok = codex_run_output(true, String::new(), b"", b"ignored");
    assert!(ok.succeeded);
    assert_eq!(ok.failure_code, None);
    assert_eq!(ok.summary, "Codex completed without a final summary.");
}
