use crate::codec::{uuid_text, uuid_to_string};
use crate::error::PublicError;
use crate::harness::HarnessOutput;
use crate::service::{
    identity_retry_delay, is_retryable_finish_error, is_retryable_heartbeat_error, retry_fits_before_lease,
    run_retry_delay, spec_identity_retry_delay, spec_is_retryable, spec_retry_fits_before_lease,
    spec_run_retry_delay, validate_once_outcome, CompletedRun, LocalAgentStatus,
    PollFailure, PollOutcome, RunLeaseState, VersionedHarnessOutput, ACTIVE_AUTH_RETRY_INITIAL_MS,
    EXPIRED_ENROLLMENT_RETRY_INITIAL_MS, FINISH_RETRY_DELAY_MS, HEARTBEAT_MAX_ATTEMPTS,
    HEARTBEAT_RETRY_DELAY_MS, MAX_UNCACHED_AUTH_ATTEMPTS_PER_POLL, PENDING_APPROVAL_RETRY_INITIAL_MS,
};
use crate::text::{chars_of, owned, push_str, string_of};
use vstd::prelude::*;

verus! {

/// What the agent's run loop does after one poll.
pub enum AgentLoopStep {
    /// Shutdown was requested: stop, noting whether some run's terminal
    /// state could not be confirmed.
    Stop { unconfirmed_terminal_runs: bool },
    /// Stop with this error.
    Fail(PublicError),
    /// A one-shot run ends with this result.
    Finish(Result<(), PublicError>),
    /// Wait for the next poll.
    Sleep,
}

/// Decides the run loop's next step from a poll's outcome: a shutdown ends
/// the loop, no identities is an error, a one-shot run ends with the poll's
/// verdict, and otherwise the loop waits.
pub fn after_poll(outcome: &PollOutcome, shutdown_requested: bool, once: bool) -> (s: AgentLoopStep)
    ensures
        shutdown_requested ==> (s matches AgentLoopStep::Stop { unconfirmed_terminal_runs: u } && u == (outcome.unconfirmed_terminal_runs > 0)),
        !shutdown_requested && outcome.configured_identities == 0 ==> (s matches AgentLoopStep::Fail(e)
            && e.code@ == "validation"@ && e.message@ == "no local agent identities; register one with the sealtask CLI"@),
        !shutdown_requested && outcome.configured_identities > 0 && once ==> (s matches AgentLoopStep::Finish(r)
            && match crate::service::spec_once_outcome(*outcome) {
                Ok(()) => r is Ok,
                Err(m) => r matches Err(e) && e.code@ == "unexpected"@ && e.message@ == m,
            }),
        !shutdown_requested && outcome.configured_identities > 0 && !once ==> s is Sleep,
{
    if shutdown_requested {
        return AgentLoopStep::Stop { unconfirmed_terminal_runs: outcome.unconfirmed_terminal_runs > 0 };
    }
    if outcome.configured_identities == 0 {
        return AgentLoopStep::Fail(PublicError::validation(owned("no local agent identities; register one with the sealtask CLI")));
    }
    if once {
        return AgentLoopStep::Finish(validate_once_outcome(outcome));
    }
    AgentLoopStep::Sleep
}

/// How the agent ends after its loop stopped: the signal listener's own
/// failure first, then any run whose terminal state stayed unconfirmed.
pub fn shutdown_result(listener: Result<(), PublicError>, unconfirmed_terminal_runs: bool) -> (r: Result<(), PublicError>)
    ensures
        match listener {
            Err(e) => r == Err::<(), PublicError>(e),
            Ok(_) => if unconfirmed_terminal_runs {
                r matches Err(e) && e.code@ == "unexpected"@
                    && e.message@ == "agent shutdown could not confirm terminal state for one or more active runs"@
            } else {
                r is Ok
            },
        },
{
    listener?;
    if unconfirmed_terminal_runs {
        return Err(PublicError::unexpected(owned("agent shutdown could not confirm terminal state for one or more active runs")));
    }
    Ok(())
}

/// The line reporting a completed run.
pub open spec fn spec_completed_run_line(run: CompletedRun) -> Seq<char> {
    "sealtask-agent: agent="@ + uuid_text(run.agent_id) + " run="@ + uuid_text(run.run_id) + " status="@ + run.status@
        + match run.worktree {
            Some(w) => " worktree="@ + w@,
            None => Seq::empty(),
        }
}

/// The line the agent writes for a run a poll completed.
pub fn completed_run_line(run: &CompletedRun) -> (l: String)
    ensures
        l@ == spec_completed_run_line(*run),
{
    let mut m = chars_of("sealtask-agent: agent=");
    push_str(&mut m, uuid_to_string(run.agent_id).as_str());
    push_str(&mut m, " run=");
    push_str(&mut m, uuid_to_string(run.run_id).as_str());
    push_str(&mut m, " status=");
    push_str(&mut m, run.status.as_str());
    match &run.worktree {
        Some(w) => {
            push_str(&mut m, " worktree=");
            push_str(&mut m, w.as_str());
        },
        None => {
            assert(m@ + Seq::<char>::empty() =~= m@);
        },
    }
    string_of(&m)
}

/// The line the agent writes for an identity whose poll failed.
pub fn poll_failure_line(failure: &PollFailure) -> (l: String)
    ensures
        l@ == "sealtask-agent: agent="@ + uuid_text(failure.agent_id) + " poll failed: "@ + failure.message@,
{
    let mut m = chars_of("sealtask-agent: agent=");
    push_str(&mut m, uuid_to_string(failure.agent_id).as_str());
    push_str(&mut m, " poll failed: ");
    push_str(&mut m, failure.message.as_str());
    string_of(&m)
}

/// When an identity may be polled again after failures.
#[derive(Debug, Clone, Copy)]
pub struct IdentityRetryState {
    pub failures: u32,
    /// Monotonic milliseconds.
    pub retry_at_ms: u64,
}

/// The backoff state of every identity that failed recently.
#[derive(Debug)]
pub struct IdentityRetries {
    pub entries: Vec<(u128, IdentityRetryState)>,
}

/// The retry state recorded for `id`, if any: the last one recorded.
pub open spec fn retry_of(entries: Seq<(u128, IdentityRetryState)>, id: u128) -> Option<IdentityRetryState>
    decreases entries.len(),
{
    if entries.len() == 0 {
        None
    } else if entries.last().0 == id {
        Some(entries.last().1)
    } else {
        retry_of(entries.drop_last(), id)
    }
}

/// The first delay of an identity's backoff, by its status.
pub open spec fn retry_base(status: LocalAgentStatus) -> u64 {
    match status {
        LocalAgentStatus::Pending => PENDING_APPROVAL_RETRY_INITIAL_MS,
        LocalAgentStatus::Expired => EXPIRED_ENROLLMENT_RETRY_INITIAL_MS,
        _ => ACTIVE_AUTH_RETRY_INITIAL_MS,
    }
}

impl IdentityRetries {
    /// No identity is backing off.
    pub fn new() -> (r: Self)
        ensures
            r.entries@ == Seq::<(u128, IdentityRetryState)>::empty(),
    {
        IdentityRetries { entries: Vec::new() }
    }

    /// The retry state recorded for `id`.
    pub fn get(&self, id: u128) -> (r: Option<IdentityRetryState>)
        ensures
            r == retry_of(self.entries@, id),
    {
        let mut i = self.entries.len();
        assert(self.entries@.subrange(0, i as int) =~= self.entries@);
        while i > 0
            invariant
                i <= self.entries@.len(),
                retry_of(self.entries@, id) == retry_of(self.entries@.subrange(0, i as int), id),
            decreases i,
        {
            assert(self.entries@.subrange(0, i as int).drop_last() =~= self.entries@.subrange(0, i - 1));
            if self.entries[i - 1].0 == id {
                return Some(self.entries[i - 1].1);
            }
            i -= 1;
        }
        assert(self.entries@.subrange(0, 0) =~= Seq::<(u128, IdentityRetryState)>::empty());
        None
    }

    /// An identity may be polled when it is not backing off or its retry
    /// time has come.
    pub fn identity_retry_is_due(&self, agent_id: u128, now_ms: u64) -> (due: bool)
        ensures
            due == match retry_of(self.entries@, agent_id) {
                None => true,
                Some(s) => now_ms >= s.retry_at_ms,
            },
    {
        match self.get(agent_id) {
            None => true,
            Some(s) => now_ms >= s.retry_at_ms,
        }
    }

    /// Records one more failure of an identity and when it may be polled
    /// again: after the identity backoff for its status, never sooner than
    /// the server asked.
    pub fn defer_identity_retry(&mut self, agent_id: u128, status: LocalAgentStatus, retry_after_ms: Option<u64>, now_ms: u64)
        ensures
            ({
                let failures = match retry_of(old(self).entries@, agent_id) {
                    None => 1,
                    Some(s) => if s.failures == u32::MAX { u32::MAX as int } else { s.failures + 1 },
                };
                let delay = spec_identity_retry_delay(retry_base(status), failures as u32, retry_after_ms, agent_id);
                retry_of(final(self).entries@, agent_id) == Some(IdentityRetryState {
                    failures: failures as u32,
                    retry_at_ms: (if now_ms + delay > u64::MAX { u64::MAX as int } else { now_ms + delay }) as u64,
                })
            }),
            forall|other: u128| other != agent_id ==> #[trigger] retry_of(final(self).entries@, other) == retry_of(old(self).entries@, other),
    {
        let base = match status {
            LocalAgentStatus::Pending => PENDING_APPROVAL_RETRY_INITIAL_MS,
            LocalAgentStatus::Expired => EXPIRED_ENROLLMENT_RETRY_INITIAL_MS,
            _ => ACTIVE_AUTH_RETRY_INITIAL_MS,
        };
        let failures = match self.get(agent_id) {
            None => 1,
            Some(s) => s.failures.saturating_add(1),
        };
        let delay = identity_retry_delay(base, failures, retry_after_ms, agent_id);
        let retry_at_ms = now_ms.saturating_add(delay);
        let ghost before = self.entries@;
        self.entries.push((agent_id, IdentityRetryState { failures, retry_at_ms }));
        assert(self.entries@.drop_last() =~= before);
    }

    /// Forgets an identity's failures after it polled successfully.
    pub fn clear_identity_retry(&mut self, agent_id: u128)
        ensures
            retry_of(final(self).entries@, agent_id) is None,
            forall|other: u128| other != agent_id ==> #[trigger] retry_of(final(self).entries@, other) == retry_of(old(self).entries@, other),
    {
        let mut kept: Vec<(u128, IdentityRetryState)> = Vec::new();
        let mut i: usize = 0;
        while i < self.entries.len()
            invariant
                i <= self.entries@.len(),
                retry_of(kept@, agent_id) is None,
                forall|other: u128| other != agent_id ==> #[trigger] retry_of(kept@, other) == retry_of(self.entries@.subrange(0, i as int), other),
            decreases self.entries@.len() - i,
        {
            let e = self.entries[i];
            let ghost before = kept@;
            let ghost p = self.entries@.subrange(0, i + 1);
            assert(p.drop_last() =~= self.entries@.subrange(0, i as int));
            if e.0 != agent_id {
                kept.push(e);
                assert(kept@.drop_last() =~= before);
            }
            assert(p.last() == e);
            assert forall|other: u128| other != agent_id implies #[trigger] retry_of(kept@, other) == retry_of(p, other) by {
                assert(retry_of(p, other) == if e.0 == other { Some(e.1) } else { retry_of(p.drop_last(), other) });
                assert(retry_of(before, other) == retry_of(self.entries@.subrange(0, i as int), other));
                if e.0 != agent_id {
                    assert(kept@.last() == e);
                    assert(retry_of(kept@, other) == if e.0 == other { Some(e.1) } else { retry_of(kept@.drop_last(), other) });
                }
            }
            i += 1;
        }
        assert(self.entries@.subrange(0, self.entries@.len() as int) =~= self.entries@);
        self.entries = kept;
    }
}

/// Whether a pending enrollment has passed its expiry and should be marked
/// expired before it is polled.
pub fn pending_enrollment_expired(status: LocalAgentStatus, enrollment_expires_at_ms: Option<i64>, now_ms: i64) -> (r: bool)
    ensures
        r == (status == LocalAgentStatus::Pending && (enrollment_expires_at_ms matches Some(t) && t <= now_ms)),
{
    match status {
        LocalAgentStatus::Pending => match enrollment_expires_at_ms {
            Some(t) => t <= now_ms,
            None => false,
        },
        _ => false,
    }
}

/// Whether an identity is polled this round, and whether polling it spends
/// the round's one fresh authentication.
#[derive(PartialEq, Eq, Structural, Clone, Copy, Debug)]
pub enum PollAdmission {
    Skip,
    Poll { uncached_auth: bool },
}

/// Admits an identity to this round's polling: revoked identities never;
/// an active identity with a cached session always; one that needs fresh
/// authentication only while the round's budget of such attempts lasts.
pub fn poll_admission(status: LocalAgentStatus, has_cached_session: bool, uncached_auth_attempts: usize) -> (a: PollAdmission)
    ensures
        a == (if status == LocalAgentStatus::Revoked {
            PollAdmission::Skip
        } else if status == LocalAgentStatus::Active && has_cached_session {
            PollAdmission::Poll { uncached_auth: false }
        } else if uncached_auth_attempts >= MAX_UNCACHED_AUTH_ATTEMPTS_PER_POLL {
            PollAdmission::Skip
        } else {
            PollAdmission::Poll { uncached_auth: true }
        }),
{
    match status {
        LocalAgentStatus::Revoked => PollAdmission::Skip,
        LocalAgentStatus::Active if has_cached_session => PollAdmission::Poll { uncached_auth: false },
        _ => if uncached_auth_attempts >= MAX_UNCACHED_AUTH_ATTEMPTS_PER_POLL {
            PollAdmission::Skip
        } else {
            PollAdmission::Poll { uncached_auth: true }
        },
    }
}

/// After a failed identity poll: whether to drop the cached session (an
/// authentication failure) and whether to back the identity off (an
/// authentication failure, rate limiting, or a fresh authentication that
/// established no session).
pub fn poll_failure_followup(http_status: Option<u16>, attempted_uncached_auth: bool, session_was_established: bool) -> (r: (bool, bool))
    ensures
        r.0 == (http_status == Some(401u16)),
        r.1 == (http_status == Some(401u16) || http_status == Some(429u16) || (attempted_uncached_auth && !session_was_established)),
{
    let unauthorized = http_status == Some(401u16);
    let defer = unauthorized || http_status == Some(429u16) || (attempted_uncached_auth && !session_was_established);
    (unauthorized, defer)
}

/// The delay before heartbeat attempt `attempt + 1`, or `None` when the
/// failure is final: the last attempt, an error that is not transient, or
/// a wait that would not end before the lease does.
pub fn heartbeat_retry_delay(attempt: u32, error: &PublicError, heartbeat_id: u128, lease_expires_at_ms: i64, now_ms: i64) -> (r: Option<u64>)
    ensures
        match r {
            Some(d) => attempt < HEARTBEAT_MAX_ATTEMPTS && spec_is_retryable(*error)
                && d == spec_run_retry_delay(HEARTBEAT_RETRY_DELAY_MS, attempt, error.retry_after_ms, heartbeat_id)
                && spec_retry_fits_before_lease(d, lease_expires_at_ms, now_ms),
            None => !(attempt < HEARTBEAT_MAX_ATTEMPTS && spec_is_retryable(*error))
                || !spec_retry_fits_before_lease(
                    spec_run_retry_delay(HEARTBEAT_RETRY_DELAY_MS, attempt, error.retry_after_ms, heartbeat_id) as u64,
                    lease_expires_at_ms, now_ms),
        },
{
    if !(attempt < HEARTBEAT_MAX_ATTEMPTS && is_retryable_heartbeat_error(error)) {
        return None;
    }
    let delay = run_retry_delay(HEARTBEAT_RETRY_DELAY_MS, attempt, error.retry_after_ms, heartbeat_id);
    if !retry_fits_before_lease(delay, lease_expires_at_ms, now_ms) {
        return None;
    }
    Some(delay)
}

/// After a failed completion report: the new count of transient failures
/// and the delay before retrying, or `None` when the report is abandoned
/// and the run's terminal state stays unconfirmed.
pub fn finish_retry_delay(retry_failures: u32, error: &PublicError, completion_id: u128, lease_expires_at_ms: i64, now_ms: i64) -> (r: (u32, Option<u64>))
    ensures
        !spec_is_retryable(*error) ==> r == (retry_failures, None::<u64>),
        spec_is_retryable(*error) ==> {
            let failures = if retry_failures == u32::MAX { u32::MAX } else { (retry_failures + 1) as u32 };
            let d = spec_run_retry_delay(FINISH_RETRY_DELAY_MS, failures, error.retry_after_ms, completion_id);
            r.0 == failures && if spec_retry_fits_before_lease(d as u64, lease_expires_at_ms, now_ms) {
                r.1 == Some(d as u64)
            } else {
                r.1 is None
            }
        },
{
    if !is_retryable_finish_error(error) {
        return (retry_failures, None);
    }
    let failures = retry_failures.saturating_add(1);
    let delay = run_retry_delay(FINISH_RETRY_DELAY_MS, failures, error.retry_after_ms, completion_id);
    if retry_fits_before_lease(delay, lease_expires_at_ms, now_ms) {
        (failures, Some(delay))
    } else {
        (failures, None)
    }
}

/// What a lease heartbeat came to while the harness ran.
pub enum HeartbeatResult {
    /// The server confirmed the lease, with its new version and expiry.
    Confirmed(RunLeaseState),
    /// The heartbeat failed for good.
    Failed,
    /// The run's deadline passed while heartbeating.
    TimedOut,
}

/// Continues the run under a renewed lease, or ends it with the output to
/// report.
pub enum HeartbeatStep {
    Continue(RunLeaseState),
    Finish(VersionedHarnessOutput),
}

/// The output reported when a run times out.
pub fn run_timeout_output(lease: RunLeaseState) -> (o: VersionedHarnessOutput)
    ensures
        o.status == crate::service::HarnessRunStatus::Failed,
        o.summary@ == "Codex execution exceeded the configured run timeout."@,
        o.failure_code matches Some(c) && c@ == "run_timeout"@,
        o.lease == lease,
{
    VersionedHarnessOutput::failed("Codex execution exceeded the configured run timeout.", "run_timeout", lease)
}

/// Applies a heartbeat's result while the harness runs: a confirmed lease
/// replaces the old one; a failed heartbeat or the run's deadline ends the
/// run as failed under the last confirmed lease.
pub fn after_heartbeat(result: HeartbeatResult, lease: RunLeaseState) -> (s: HeartbeatStep)
    ensures
        match result {
            HeartbeatResult::Confirmed(l) => s matches HeartbeatStep::Continue(n) && n == l,
            HeartbeatResult::Failed => s matches HeartbeatStep::Finish(o) && o.lease == lease
                && o.status == crate::service::HarnessRunStatus::Failed
                && o.summary@ == "The agent run stopped because its lease heartbeat could not be confirmed."@
                && (o.failure_code matches Some(c) && c@ == "heartbeat_failed"@),
            HeartbeatResult::TimedOut => s matches HeartbeatStep::Finish(o) && o.lease == lease
                && o.status == crate::service::HarnessRunStatus::Failed
                && (o.failure_code matches Some(c) && c@ == "run_timeout"@),
        },
{
    match result {
        HeartbeatResult::Confirmed(l) => HeartbeatStep::Continue(l),
        HeartbeatResult::Failed => HeartbeatStep::Finish(VersionedHarnessOutput::failed(
            "The agent run stopped because its lease heartbeat could not be confirmed.",
            "heartbeat_failed",
            lease,
        )),
        HeartbeatResult::TimedOut => HeartbeatStep::Finish(run_timeout_output(lease)),
    }
}

/// The output of a harness run that ended, or failed to run at all.
pub fn harness_outcome(output: Option<HarnessOutput>, lease: RunLeaseState) -> (o: VersionedHarnessOutput)
    ensures
        o.lease == lease,
        match output {
            Some(out) => o.status == (if out.succeeded { crate::service::HarnessRunStatus::Succeeded } else { crate::service::HarnessRunStatus::Failed })
                && o.summary@ == out.summary@ && o.failure_code == out.failure_code,
            None => o.status == crate::service::HarnessRunStatus::Failed
                && o.summary@ == "The configured Codex harness failed before producing a result."@
                && (o.failure_code matches Some(c) && c@ == "harness_error"@),
        },
{
    match output {
        Some(out) => VersionedHarnessOutput::new(out, lease),
        None => VersionedHarnessOutput::failed("The configured Codex harness failed before producing a result.", "harness_error", lease),
    }
}

/// Runs whose completion report was abandoned, with their lease expiry in
/// milliseconds since the Unix epoch.
#[derive(Debug)]
pub struct UnconfirmedFinishes {
    pub entries: Vec<(u128, i64)>,
}

impl UnconfirmedFinishes {
    /// Forgets runs whose lease has expired, and counts those left: runs
    /// whose terminal state may still be unconfirmed.
    pub fn active_unconfirmed_terminal_run_count(&mut self, now_ms: i64) -> (n: usize)
        ensures
            final(self).entries@ == old(self).entries@.filter(|e: (u128, i64)| e.1 > now_ms),
            n == final(self).entries@.len(),
    {
        let mut kept: Vec<(u128, i64)> = Vec::new();
        let mut i: usize = 0;
        while i < self.entries.len()
            invariant
                i <= self.entries@.len(),
                kept@ == self.entries@.subrange(0, i as int).filter(|e: (u128, i64)| e.1 > now_ms),
            decreases self.entries@.len() - i,
        {
            let e = self.entries[i];
            proof {
                let p = self.entries@.subrange(0, i + 1);
                assert(p.drop_last() =~= self.entries@.subrange(0, i as int));
                self.entries@.subrange(0, i as int).lemma_filter_push(e, |e: (u128, i64)| e.1 > now_ms);
                assert(p =~= self.entries@.subrange(0, i as int).push(e));
            }
            if e.1 > now_ms {
                kept.push(e);
            }
            i += 1;
        }
        assert(self.entries@.subrange(0, self.entries@.len() as int) =~= self.entries@);
        self.entries = kept;
        self.entries.len()
    }
}


proof fn lemma_pow2_positive(n: nat)
    ensures
        crate::service::pow2(n) >= 1,
    decreases n,
{
    if n > 0 {
        lemma_pow2_positive((n - 1) as nat);
    }
}

/// An identity that just failed is not polled again at once: its backoff
/// is at least the first delay for its status, so its retry time lies
/// ahead of the failure.
pub proof fn lemma_failed_identity_backs_off(status: LocalAgentStatus, failures: u32, retry_after_ms: Option<u64>, agent_id: u128, now_ms: u64)
    requires
        failures >= 1,
        now_ms < u64::MAX,
    ensures
        spec_identity_retry_delay(retry_base(status), failures, retry_after_ms, agent_id) >= retry_base(status),
        ({
            let d = spec_identity_retry_delay(retry_base(status), failures, retry_after_ms, agent_id);
            (if now_ms + d > u64::MAX { u64::MAX as int } else { now_ms + d }) > now_ms
        }),
{
    let base = retry_base(status);
    let e: nat = if failures - 1 > 16 { 16nat } else { (failures - 1) as nat };
    lemma_pow2_positive(e);
    assert(base as int * crate::service::pow2(e) as int >= base as int) by (nonlinear_arith)
        requires
            crate::service::pow2(e) >= 1,
    ;
}

} // verus!
