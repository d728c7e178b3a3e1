use crate::error::PublicError;
use crate::text::{decimal, owned, push_decimal, push_str, str_eq, string_of};
use vstd::prelude::*;

verus! {

// Durations and monotonic instants are counted in milliseconds; wall-clock
// timestamps are milliseconds since the Unix epoch.

/// First retry delay of a heartbeat.
pub const HEARTBEAT_RETRY_DELAY_MS: u64 = 1000;
/// Attempts made for one heartbeat.
pub const HEARTBEAT_MAX_ATTEMPTS: u32 = 3;
/// First retry delay when completing a run.
pub const FINISH_RETRY_DELAY_MS: u64 = 1000;
/// Upper bound of a run-scoped retry backoff.
pub const RUN_RETRY_MAX_DELAY_MS: u64 = 30000;
/// Largest jitter added to a run-scoped retry.
pub const RUN_RETRY_JITTER_MAX_MS: u64 = 250;
/// Time that must remain on a lease after a retry delay.
pub const LEASE_RETRY_SAFETY_MARGIN_MS: u64 = 1000;
/// Refresh a token this long before it expires.
pub const TOKEN_REFRESH_MARGIN_MS: u64 = 30000;
/// Largest extra refresh margin, in whole seconds.
pub const TOKEN_REFRESH_JITTER_MAX_SECS: u64 = 10;
/// First backoff after a failed token refresh.
pub const TOKEN_REFRESH_RETRY_INITIAL_MS: u64 = 5000;
/// Upper bound of the token refresh backoff.
pub const TOKEN_REFRESH_RETRY_MAX_MS: u64 = 30000;
/// A token closer than this to expiry is treated as expired.
pub const TOKEN_EXPIRY_SAFETY_MARGIN_MS: u64 = 5000;
/// Longest token lifetime accepted from the server, in seconds.
pub const MAX_AGENT_TOKEN_LIFETIME_SECS: u64 = 300;
/// First retry delay of an active identity whose authentication failed.
pub const ACTIVE_AUTH_RETRY_INITIAL_MS: u64 = 60000;
/// First retry delay of an identity awaiting approval.
pub const PENDING_APPROVAL_RETRY_INITIAL_MS: u64 = 60000;
/// First retry delay of an identity whose enrollment expired.
pub const EXPIRED_ENROLLMENT_RETRY_INITIAL_MS: u64 = 3600000;
/// Upper bound of an identity retry delay.
pub const IDENTITY_AUTH_RETRY_MAX_MS: u64 = 86400000;
/// Largest jitter added to an identity retry.
pub const IDENTITY_AUTH_RETRY_JITTER_MAX_MS: u64 = 5000;
/// Identities without a cached session that may authenticate per poll.
pub const MAX_UNCACHED_AUTH_ATTEMPTS_PER_POLL: usize = 1;

/// `2^n`.
pub open spec fn pow2(n: nat) -> nat
    decreases n,
{
    if n == 0 { 1 } else { 2 * pow2((n - 1) as nat) }
}

/// `a * b` saturated at `u64::MAX`.
pub open spec fn saturating_mul(a: int, b: int) -> int {
    if a * b > u64::MAX { u64::MAX as int } else { a * b }
}

/// `a + b` saturated at `u64::MAX`.
pub open spec fn saturating_add(a: int, b: int) -> int {
    if a + b > u64::MAX { u64::MAX as int } else { a + b }
}

/// The smaller of two integers.
pub open spec fn min(a: int, b: int) -> int {
    if a <= b { a } else { b }
}

/// The larger of two integers.
pub open spec fn max(a: int, b: int) -> int {
    if a >= b { a } else { b }
}

/// Doubling backoff: `base * 2^(failures - 1)` with the exponent capped at
/// 16, saturated, and bounded by `maximum`.
pub open spec fn spec_exponential_backoff(base: u64, maximum: u64, failures: u32) -> int {
    let exponent = if failures == 0 { 0nat } else if failures - 1 > 16 { 16nat } else { (
    failures - 1) as nat };
    min(saturating_mul(base as int, pow2(exponent) as int), maximum as int)
}

/// Exponential backoff for the `failures`-th consecutive failure.
pub fn exponential_backoff(base: u64, maximum: u64, failures: u32) -> (delay: u64)
    ensures
        delay == spec_exponential_backoff(base, maximum, failures),
{
    let exponent: u32 = if failures == 0 {
        0
    } else if failures - 1 > 16 {
        16
    } else {
        failures - 1
    };
    let mut multiplier: u64 = 1;
    let mut i: u32 = 0;
    while i < exponent
        invariant
            i <= exponent <= 16,
            multiplier == pow2(i as nat),
            multiplier <= 65536,
        decreases exponent - i,
    {
        proof {
            assert(pow2((i + 1) as nat) == 2 * pow2(i as nat));
            lemma_pow2_bound((i + 1) as nat);
        }
        multiplier = multiplier * 2;
        i = i + 1;
    }
    let product = match base.checked_mul(multiplier) {
        Some(p) => p,
        None => u64::MAX,
    };
    if product < maximum {
        product
    } else {
        maximum
    }
}

proof fn lemma_pow2_bound(n: nat)
    requires
        n <= 16,
    ensures
        pow2(n) <= 65536,
    decreases n,
{
    if n > 0 {
        lemma_pow2_bound((n - 1) as nat);
        lemma_pow2_mono((n - 1) as nat, 15);
        assert(pow2(15) == 32768) by {
            reveal_with_fuel(pow2, 16);
        }
    }
}

proof fn lemma_pow2_mono(a: nat, b: nat)
    requires
        a <= b,
    ensures
        pow2(a) <= pow2(b),
    decreases b,
{
    if a < b {
        lemma_pow2_mono(a, (b - 1) as nat);
    }
}

/// Deterministic jitter seed for a retry, from its identifier and attempt.
pub open spec fn jitter_seed(id: u128, failures: u32, factor: u128) -> u128 {
    id ^ ((failures as u128) * factor) as u128
}

/// Delay before retrying a run-scoped request (heartbeat or completion):
/// the local backoff plus up to 250 ms of jitter derived from the retry's
/// identifier, never shorter than the server's requested delay.
pub open spec fn spec_run_retry_delay(
    base: u64,
    failures: u32,
    retry_after_ms: Option<u64>,
    retry_id: u128,
) -> int {
    let local = spec_exponential_backoff(base, RUN_RETRY_MAX_DELAY_MS, failures);
    let jitter = (jitter_seed(retry_id, failures, 0x9e37_79b9) % 251) as int;
    max(saturating_add(local, jitter), retry_after_ms.unwrap_or(0) as int)
}

/// Delay before retrying a run-scoped request.
pub fn run_retry_delay(base: u64, failures: u32, retry_after_ms: Option<u64>, retry_id: u128) -> (delay: u64)
    ensures
        delay == spec_run_retry_delay(base, failures, retry_after_ms, retry_id),
{
    let local = exponential_backoff(base, RUN_RETRY_MAX_DELAY_MS, failures);
    let f = failures as u128;
    assert(f * 0x9e37_79b9u128 <= u32::MAX as u128 * 0x9e37_79b9u128) by (nonlinear_arith)
        requires
            f <= u32::MAX as u128,
    ;
    let seed = retry_id ^ (f * 0x9e37_79b9u128);
    let jitter = (seed % 251) as u64;
    let jittered = match local.checked_add(jitter) {
        Some(v) => v,
        None => u64::MAX,
    };
    let floor = match retry_after_ms {
        Some(v) => v,
        None => 0,
    };
    if jittered >= floor {
        jittered
    } else {
        floor
    }
}

/// Delay before an identity is polled again after a failure: local backoff
/// plus up to 5 s of jitter, bounded by one day, never shorter than the
/// server's requested delay.
pub open spec fn spec_identity_retry_delay(
    base: u64,
    failures: u32,
    retry_after_ms: Option<u64>,
    agent_id: u128,
) -> int {
    let local = spec_exponential_backoff(base, IDENTITY_AUTH_RETRY_MAX_MS, failures);
    let jitter = (jitter_seed(agent_id, failures, 0x517c_c1b7) % 5001) as int;
    max(
        min(saturating_add(local, jitter), IDENTITY_AUTH_RETRY_MAX_MS as int),
        retry_after_ms.unwrap_or(0) as int,
    )
}

/// Delay before an identity is polled again after a failure.
pub fn identity_retry_delay(base: u64, failures: u32, retry_after_ms: Option<u64>, agent_id: u128) -> (delay: u64)
    ensures
        delay == spec_identity_retry_delay(base, failures, retry_after_ms, agent_id),
{
    let local = exponential_backoff(base, IDENTITY_AUTH_RETRY_MAX_MS, failures);
    let f = failures as u128;
    assert(f * 0x517c_c1b7u128 <= u32::MAX as u128 * 0x517c_c1b7u128) by (nonlinear_arith)
        requires
            f <= u32::MAX as u128,
    ;
    let seed = agent_id ^ (f * 0x517c_c1b7u128);
    let jitter = (seed % 5001) as u64;
    let jittered = match local.checked_add(jitter) {
        Some(v) => v,
        None => u64::MAX,
    };
    let bounded = if jittered < IDENTITY_AUTH_RETRY_MAX_MS {
        jittered
    } else {
        IDENTITY_AUTH_RETRY_MAX_MS
    };
    let floor = match retry_after_ms {
        Some(v) => v,
        None => 0,
    };
    if bounded >= floor {
        bounded
    } else {
        floor
    }
}

/// A retry may wait `delay_ms` only if the lease, expiring at
/// `lease_expires_at_ms` (wall clock), still has strictly more than the
/// delay plus the safety margin left at `now_ms`.
pub open spec fn spec_retry_fits_before_lease(delay_ms: u64, lease_expires_at_ms: i64, now_ms: i64) -> bool {
    lease_expires_at_ms >= now_ms && saturating_add(delay_ms as int, LEASE_RETRY_SAFETY_MARGIN_MS as int) < lease_expires_at_ms - now_ms
}

/// Whether waiting `delay_ms` before a retry still leaves the lease valid.
pub fn retry_fits_before_lease(delay_ms: u64, lease_expires_at_ms: i64, now_ms: i64) -> (fits: bool)
    ensures
        fits == spec_retry_fits_before_lease(delay_ms, lease_expires_at_ms, now_ms),
{
    let required = match delay_ms.checked_add(LEASE_RETRY_SAFETY_MARGIN_MS) {
        Some(v) => v,
        None => u64::MAX,
    };
    if lease_expires_at_ms < now_ms {
        return false;
    }
    let remaining: i128 = lease_expires_at_ms as i128 - now_ms as i128;
    (required as i128) < remaining
}

/// A token expiring at `expires_at_ms` is usable at `now_ms` only while
/// strictly more than the expiry safety margin remains.
pub open spec fn spec_token_is_outside_expiry_margin(expires_at_ms: u64, now_ms: u64) -> bool {
    expires_at_ms >= now_ms && expires_at_ms - now_ms > TOKEN_EXPIRY_SAFETY_MARGIN_MS
}

/// Whether a token is still outside its expiry safety margin.
pub fn token_is_outside_expiry_margin(expires_at_ms: u64, now_ms: u64) -> (r: bool)
    ensures
        r == spec_token_is_outside_expiry_margin(expires_at_ms, now_ms),
{
    expires_at_ms >= now_ms && expires_at_ms - now_ms > TOKEN_EXPIRY_SAFETY_MARGIN_MS
}


/// Whether an error from a run heartbeat, a token refresh, or a run
/// completion is transient: a transport or malformed-response failure, an
/// HTTP 408, 429 or 5xx status, or a timeout or rate-limit code.
pub open spec fn spec_is_retryable(error: PublicError) -> bool {
    ||| error.transport_failure
    ||| error.response_failure
    ||| (error.http_status matches Some(s) && (s == 408 || s == 429 || (500 <= s && s <= 599)))
    ||| error.code@ == "request_timeout"@
    ||| error.code@ == "rate_limited"@
}

fn is_retryable(error: &PublicError) -> (r: bool)
    ensures
        r == spec_is_retryable(*error),
{
    let status_retryable = match error.http_status {
        Some(s) => s == 408 || s == 429 || (500 <= s && s <= 599),
        None => false,
    };
    error.transport_failure || error.response_failure || status_retryable || str_eq(
        error.code.as_str(),
        "request_timeout",
    ) || str_eq(error.code.as_str(), "rate_limited")
}

/// A heartbeat, token refresh or run completion that failed with HTTP 408,
/// 429 or any 5xx status is retried; for an error with no transport or
/// response failure and a code other than `request_timeout` or
/// `rate_limited`, any other status (or none) is final.
pub proof fn lemma_transient_statuses_are_retryable(error: PublicError)
    ensures
        (error.http_status matches Some(s) && 500 <= s && s <= 599) ==> spec_is_retryable(error),
        error.http_status == Some(408u16) ==> spec_is_retryable(error),
        error.http_status == Some(429u16) ==> spec_is_retryable(error),
        error.transport_failure ==> spec_is_retryable(error),
        error.response_failure ==> spec_is_retryable(error),
        (!error.transport_failure && !error.response_failure && error.code@ != "request_timeout"@
            && error.code@ != "rate_limited"@ && !(error.http_status matches Some(s) && (s == 408 || s == 429 || (500 <= s
            && s <= 599)))) ==> !spec_is_retryable(error),
{
}

/// Whether a failed heartbeat may be retried.
pub fn is_retryable_heartbeat_error(error: &PublicError) -> (r: bool)
    ensures
        r == spec_is_retryable(*error),
{
    is_retryable(error)
}

/// Whether a failed token refresh may be retried.
pub fn is_retryable_session_refresh_error(error: &PublicError) -> (r: bool)
    ensures
        r == spec_is_retryable(*error),
{
    is_retryable(error)
}

/// Whether a failed run completion may be retried.
pub fn is_retryable_finish_error(error: &PublicError) -> (r: bool)
    ensures
        r == spec_is_retryable(*error),
{
    is_retryable(error)
}

/// The refresh and expiry deadlines of a freshly minted agent token, or
/// why the token is unusable.
#[derive(Debug)]
pub enum DeadlineError {
    /// Lifetime of zero or above the maximum.
    InvalidLifetime,
    /// Expiry does not fit the clock range.
    ExpiryOverflow,
    /// The response arrived inside the expiry safety margin.
    TooCloseToExpiry,
    /// The refresh deadline does not fit the clock range.
    RefreshOverflow,
}

/// Refresh margin of a token: 30 s plus 0 to 10 s chosen by the agent's
/// identifier, so agents do not refresh in lockstep.
pub open spec fn refresh_margin_ms(agent_id: u128) -> int {
    TOKEN_REFRESH_MARGIN_MS + ((agent_id % 256) % 11) * 1000
}

/// Deadlines of a token with lifetime `expires_in_secs`, requested at
/// `request_started_at_ms` and received at `response_received_at_ms`.
pub open spec fn spec_agent_session_deadlines(
    request_started_at_ms: u64,
    response_received_at_ms: u64,
    expires_in_secs: u64,
    agent_id: u128,
) -> Result<(int, int), DeadlineError> {
    let lifetime = expires_in_secs * 1000;
    if expires_in_secs == 0 || expires_in_secs > MAX_AGENT_TOKEN_LIFETIME_SECS {
        Err(DeadlineError::InvalidLifetime)
    } else if request_started_at_ms + lifetime > u64::MAX {
        Err(DeadlineError::ExpiryOverflow)
    } else if !spec_token_is_outside_expiry_margin(
        (request_started_at_ms + lifetime) as u64,
        response_received_at_ms,
    ) {
        Err(DeadlineError::TooCloseToExpiry)
    } else {
        let refresh_after = if lifetime > refresh_margin_ms(agent_id) {
            lifetime - refresh_margin_ms(agent_id)
        } else {
            0
        };
        Ok((request_started_at_ms + refresh_after, request_started_at_ms + lifetime))
    }
}

/// The error reported for an unusable token response.
pub open spec fn deadline_error_message(e: DeadlineError) -> (Seq<char>, Seq<char>) {
    match e {
        DeadlineError::InvalidLifetime => (
            "validation"@,
            "agent token response contained an invalid lifetime"@,
        ),
        DeadlineError::ExpiryOverflow => (
            "validation"@,
            "agent token lifetime exceeded the local monotonic clock range"@,
        ),
        DeadlineError::TooCloseToExpiry => (
            "request_timeout"@,
            "agent token response arrived too close to expiry"@,
        ),
        DeadlineError::RefreshOverflow => (
            "validation"@,
            "agent token refresh deadline overflowed"@,
        ),
    }
}

/// Computes `(refresh_at, expires_at)` for a minted token. The lifetime
/// counts from when the request was sent, so the mint round trip is
/// charged against the token; a response already inside the expiry margin
/// is rejected with a timeout.
pub fn agent_session_deadlines(
    request_started_at_ms: u64,
    response_received_at_ms: u64,
    expires_in_secs: u64,
    agent_id: u128,
) -> (r: Result<(u64, u64), PublicError>)
    ensures
        match spec_agent_session_deadlines(
            request_started_at_ms,
            response_received_at_ms,
            expires_in_secs,
            agent_id,
        ) {
            Ok((refresh_at, expires_at)) => r matches Ok((a, b)) && a == refresh_at && b
                == expires_at,
            Err(e) => r matches Err(err) && err.code@ == deadline_error_message(e).0
                && err.message@ == deadline_error_message(e).1,
        },
{
    if expires_in_secs == 0 || expires_in_secs > MAX_AGENT_TOKEN_LIFETIME_SECS {
        return Err(PublicError::validation(owned("agent token response contained an invalid lifetime")));
    }
    let lifetime = expires_in_secs * 1000;
    let expires_at = match request_started_at_ms.checked_add(lifetime) {
        Some(v) => v,
        None => {
            return Err(PublicError::validation(owned("agent token lifetime exceeded the local monotonic clock range")));
        },
    };
    if !token_is_outside_expiry_margin(expires_at, response_received_at_ms) {
        return Err(PublicError::request_timeout(owned("agent token response arrived too close to expiry")));
    }
    let jitter_seconds = ((agent_id % 256) as u64) % (TOKEN_REFRESH_JITTER_MAX_SECS + 1);
    let refresh_margin = TOKEN_REFRESH_MARGIN_MS + jitter_seconds * 1000;
    let refresh_after = if lifetime > refresh_margin {
        lifetime - refresh_margin
    } else {
        0
    };
    let refresh_at = request_started_at_ms + refresh_after;
    Ok((refresh_at, expires_at))
}

/// Local refresh bookkeeping of a cached agent session.
#[derive(Debug, Clone, Copy)]
pub struct SessionTimers {
    pub refresh_at_ms: u64,
    pub expires_at_ms: u64,
    pub refresh_failures: u32,
    pub refresh_retry_not_before_ms: Option<u64>,
}

/// What to do with a cached session before using it.
#[derive(Debug)]
pub enum SessionFreshness {
    /// The session can be used as it is.
    Current,
    /// A new token must be minted now.
    Refresh,
    /// Server backoff defers the refresh and the token is too close to
    /// expiry to keep using: fail with this error.
    Deferred(PublicError),
}

/// The freshness decision: a pending server backoff keeps the current
/// token while it is outside the expiry margin and otherwise fails with the
/// remaining backoff; once the backoff has passed it is cleared. Without a
/// backoff the token is refreshed when its refresh time has come or it is
/// inside the expiry margin.
pub open spec fn freshness_ok(old: SessionTimers, new: SessionTimers, now_ms: u64, decision: SessionFreshness) -> bool {
    match old.refresh_retry_not_before_ms {
        Some(not_before) if now_ms < not_before => {
            &&& new == old
            &&& if spec_token_is_outside_expiry_margin(old.expires_at_ms, now_ms) {
                decision is Current
            } else {
                decision matches SessionFreshness::Deferred(e) && e.code@ == "rate_limited"@
                    && e.retry_after_ms == Some((not_before - now_ms) as u64)
                    && e.message@ == "agent token refresh remains deferred by server backoff"@
            }
        },
        _ => {
            &&& new == SessionTimers { refresh_retry_not_before_ms: None, ..old }
            &&& if now_ms < old.refresh_at_ms && spec_token_is_outside_expiry_margin(
                old.expires_at_ms,
                now_ms,
            ) {
                decision is Current
            } else {
                decision is Refresh
            }
        },
    }
}

/// Decides, at `now_ms`, whether a cached session can be used or must be
/// refreshed first.
pub fn session_freshness(session: &mut SessionTimers, now_ms: u64) -> (decision: SessionFreshness)
    ensures
        freshness_ok(*old(session), *final(session), now_ms, decision),
{
    if let Some(not_before) = session.refresh_retry_not_before_ms {
        if now_ms < not_before {
            if token_is_outside_expiry_margin(session.expires_at_ms, now_ms) {
                return SessionFreshness::Current;
            }
            return SessionFreshness::Deferred(
                PublicError::rate_limited_with_retry_after(
                    owned("agent token refresh remains deferred by server backoff"),
                    not_before - now_ms,
                ),
            );
        }
    }
    session.refresh_retry_not_before_ms = None;
    if now_ms < session.refresh_at_ms && token_is_outside_expiry_margin(session.expires_at_ms, now_ms) {
        SessionFreshness::Current
    } else {
        SessionFreshness::Refresh
    }
}

/// How a refresh attempt that finished at `finished_at_ms` updates the
/// session: success replaces it; a transient failure schedules a backed-off
/// retry and fails only when the old token is inside its expiry margin; any
/// other failure is returned unchanged.
pub open spec fn refresh_outcome_ok(
    old: SessionTimers,
    refresh: Result<SessionTimers, PublicError>,
    finished_at_ms: u64,
    new: SessionTimers,
    r: Result<(), PublicError>,
) -> bool {
    match refresh {
        Ok(refreshed) => new == refreshed && r is Ok,
        Err(error) => if spec_is_retryable(error) {
            let failures = if old.refresh_failures == u32::MAX { u32::MAX } else { (old.refresh_failures + 1) as u32 };
            let delay = max(
                spec_exponential_backoff(TOKEN_REFRESH_RETRY_INITIAL_MS, TOKEN_REFRESH_RETRY_MAX_MS, failures),
                error.retry_after_ms.unwrap_or(0) as int,
            );
            let not_before = if finished_at_ms + delay <= u64::MAX { finished_at_ms + delay } else { old.expires_at_ms as int };
            &&& new.refresh_failures == failures
            &&& new.refresh_at_ms == not_before
            &&& new.refresh_retry_not_before_ms == Some(not_before as u64)
            &&& new.expires_at_ms == old.expires_at_ms
            &&& if spec_token_is_outside_expiry_margin(old.expires_at_ms, finished_at_ms) {
                r is Ok
            } else {
                r matches Err(e) && e.code@ == "rate_limited"@ && e.retry_after_ms == Some(delay as u64)
                    && e.message@ == "agent token refresh failed inside its expiry safety margin"@
            }
        } else {
            new == old && r == Err::<(), PublicError>(error)
        },
    }
}

/// Applies the result of a token refresh attempt to the session.
pub fn apply_session_refresh(
    session: &mut SessionTimers,
    refresh: Result<SessionTimers, PublicError>,
    finished_at_ms: u64,
) -> (r: Result<(), PublicError>)
    ensures
        refresh_outcome_ok(*old(session), refresh, finished_at_ms, *final(session), r),
{
    match refresh {
        Ok(refreshed) => {
            *session = refreshed;
            Ok(())
        },
        Err(error) => {
            if !is_retryable_session_refresh_error(&error) {
                return Err(error);
            }
            session.refresh_failures = if session.refresh_failures == u32::MAX {
                u32::MAX
            } else {
                session.refresh_failures + 1
            };
            let backoff = exponential_backoff(
                TOKEN_REFRESH_RETRY_INITIAL_MS,
                TOKEN_REFRESH_RETRY_MAX_MS,
                session.refresh_failures,
            );
            let server = match error.retry_after_ms {
                Some(v) => v,
                None => 0,
            };
            let delay = if backoff >= server { backoff } else { server };
            let not_before = match finished_at_ms.checked_add(delay) {
                Some(v) => v,
                None => session.expires_at_ms,
            };
            session.refresh_at_ms = not_before;
            session.refresh_retry_not_before_ms = Some(not_before);
            if !token_is_outside_expiry_margin(session.expires_at_ms, finished_at_ms) {
                return Err(
                    PublicError::rate_limited_with_retry_after(
                        owned("agent token refresh failed inside its expiry safety margin"),
                        delay,
                    ),
                );
            }
            Ok(())
        },
    }
}


/// Lifecycle of a locally enrolled agent identity.
#[derive(Debug, Clone, Copy, PartialEq, Eq, Structural)]
pub enum LocalAgentStatus {
    Pending,
    Expired,
    Active,
    Revoked,
}

/// The facts about a local agent identity that polling decides on.
#[derive(Debug, Clone, Copy)]
pub struct AgentIdentity {
    pub agent_id: u128,
    pub status: LocalAgentStatus,
    /// Creation time, milliseconds since the Unix epoch.
    pub created_at_ms: i64,
}

/// Whether `id` is among the identities with a cached session.
pub open spec fn has_session(cached_sessions: Seq<u128>, id: u128) -> bool {
    cached_sessions.contains(id)
}

fn contains_id(ids: &Vec<u128>, id: u128) -> (r: bool)
    ensures
        r == ids@.contains(id),
{
    let mut i: usize = 0;
    while i < ids.len()
        invariant
            i <= ids.len(),
            forall|j: int| 0 <= j < i ==> ids@[j] != id,
        decreases ids.len() - i,
    {
        if ids[i] == id {
            return true;
        }
        i += 1;
    }
    false
}

/// Poll bucket of an identity: active ones with a cached session first,
/// then active ones that must authenticate, then pending, expired and
/// revoked enrollments.
pub open spec fn spec_poll_bucket(identity: AgentIdentity, cached_sessions: Seq<u128>) -> u8 {
    match identity.status {
        LocalAgentStatus::Active => if has_session(cached_sessions, identity.agent_id) { 0 } else { 1 },
        LocalAgentStatus::Pending => 2,
        LocalAgentStatus::Expired => 3,
        LocalAgentStatus::Revoked => 4,
    }
}

/// Sort key of an identity when polling: bucket, then creation time, then
/// identifier.
pub fn identity_poll_priority(identity: &AgentIdentity, cached_sessions: &Vec<u128>) -> (key: (u8, i64, u128))
    ensures
        key == (spec_poll_bucket(*identity, cached_sessions@), identity.created_at_ms, identity.agent_id),
{
    let bucket: u8 = match identity.status {
        LocalAgentStatus::Active => if contains_id(cached_sessions, identity.agent_id) { 0 } else { 1 },
        LocalAgentStatus::Pending => 2,
        LocalAgentStatus::Expired => 3,
        LocalAgentStatus::Revoked => 4,
    };
    (bucket, identity.created_at_ms, identity.agent_id)
}

/// Whether polling the identity needs a fresh authentication.
pub open spec fn spec_requires_uncached_auth(identity: AgentIdentity, cached_sessions: Seq<u128>) -> bool {
    match identity.status {
        LocalAgentStatus::Active => !has_session(cached_sessions, identity.agent_id),
        LocalAgentStatus::Pending | LocalAgentStatus::Expired => true,
        LocalAgentStatus::Revoked => false,
    }
}

/// Whether polling the identity needs a fresh authentication.
pub fn identity_requires_uncached_auth(identity: &AgentIdentity, cached_sessions: &Vec<u128>) -> (r: bool)
    ensures
        r == spec_requires_uncached_auth(*identity, cached_sessions@),
{
    match identity.status {
        LocalAgentStatus::Active => !contains_id(cached_sessions, identity.agent_id),
        LocalAgentStatus::Pending | LocalAgentStatus::Expired => true,
        LocalAgentStatus::Revoked => false,
    }
}

/// Index of the first identity that needs fresh authentication, at or
/// after `i`.
pub open spec fn first_uncached_from(c: Seq<AgentIdentity>, cached: Seq<u128>, i: int) -> int
    decreases c.len() - i,
{
    if i >= c.len() {
        c.len() as int
    } else if spec_requires_uncached_auth(c[i], cached) {
        i
    } else {
        first_uncached_from(c, cached, i + 1)
    }
}

/// End of the run, starting at `i`, of identities that need fresh
/// authentication and share poll bucket `bucket`.
pub open spec fn uncached_run_end(c: Seq<AgentIdentity>, cached: Seq<u128>, bucket: u8, i: int) -> int
    decreases c.len() - i,
{
    if i >= c.len() {
        c.len() as int
    } else if spec_requires_uncached_auth(c[i], cached) && spec_poll_bucket(c[i], cached) == bucket {
        uncached_run_end(c, cached, bucket, i + 1)
    } else {
        i
    }
}

/// Index of the first element of `s` with identifier `id`, at or after `i`.
pub open spec fn position_of_id(s: Seq<AgentIdentity>, id: u128, i: int) -> int
    decreases s.len() - i,
{
    if i >= s.len() {
        s.len() as int
    } else if s[i].agent_id == id {
        i
    } else {
        position_of_id(s, id, i + 1)
    }
}

/// `s` rotated left by `r` places.
pub open spec fn rotate_left<T>(s: Seq<T>, r: int) -> Seq<T> {
    s.subrange(r, s.len() as int) + s.subrange(0, r)
}

/// Rotation of the first run of identities that need fresh authentication
/// and share a poll bucket, so that the one after `cursor` (the identity
/// that authenticated last) goes first; other identities keep their places.
pub open spec fn spec_rotate_uncached(c: Seq<AgentIdentity>, cached: Seq<u128>, cursor: Option<u128>) -> Seq<AgentIdentity> {
    let start = first_uncached_from(c, cached, 0);
    match cursor {
        None => c,
        Some(id) => if start >= c.len() {
            c
        } else {
            let end = uncached_run_end(c, cached, spec_poll_bucket(c[start], cached), start);
            let run = c.subrange(start, end);
            let p = position_of_id(run, id, 0);
            if p >= run.len() {
                c
            } else {
                c.subrange(0, start) + rotate_left(run, (p + 1) % run.len() as int) + c.subrange(end, c.len() as int)
            }
        },
    }
}

proof fn lemma_first_uncached(c: Seq<AgentIdentity>, cached: Seq<u128>, i: int)
    requires
        0 <= i <= c.len(),
    ensures
        i <= first_uncached_from(c, cached, i) <= c.len(),
        first_uncached_from(c, cached, i) < c.len() ==> spec_requires_uncached_auth(c[first_uncached_from(c, cached, i)], cached),
    decreases c.len() - i,
{
    if i < c.len() && !spec_requires_uncached_auth(c[i], cached) {
        lemma_first_uncached(c, cached, i + 1);
    }
}

proof fn lemma_run_end(c: Seq<AgentIdentity>, cached: Seq<u128>, bucket: u8, i: int)
    requires
        0 <= i <= c.len(),
    ensures
        i <= uncached_run_end(c, cached, bucket, i) <= c.len(),
    decreases c.len() - i,
{
    if i < c.len() && spec_requires_uncached_auth(c[i], cached) && spec_poll_bucket(c[i], cached) == bucket {
        lemma_run_end(c, cached, bucket, i + 1);
    }
}

proof fn lemma_position(s: Seq<AgentIdentity>, id: u128, i: int)
    requires
        0 <= i <= s.len(),
    ensures
        i <= position_of_id(s, id, i) <= s.len(),
    decreases s.len() - i,
{
    if i < s.len() && s[i].agent_id != id {
        lemma_position(s, id, i + 1);
    }
}

/// Rotates the first bucket of identities that need fresh authentication
/// so that authentication attempts take turns across polls.
pub fn rotate_uncached_auth_candidates(
    candidates: &mut Vec<AgentIdentity>,
    cached_sessions: &Vec<u128>,
    cursor: Option<u128>,
)
    ensures
        final(candidates)@ == spec_rotate_uncached(old(candidates)@, cached_sessions@, cursor),
{
    let ghost c = candidates@;
    let cursor_id = match cursor {
        None => return,
        Some(id) => id,
    };
    let n = candidates.len();
    let mut start: usize = 0;
    while start < n && !identity_requires_uncached_auth(&candidates[start], cached_sessions)
        invariant
            n == candidates.len(),
            candidates@ == c,
            start <= n,
            first_uncached_from(c, cached_sessions@, 0) == first_uncached_from(c, cached_sessions@, start as int),
        decreases n - start,
    {
        start += 1;
    }
    if start >= n {
        return;
    }
    let bucket = identity_poll_priority(&candidates[start], cached_sessions).0;
    let mut end: usize = start;
    while end < n && identity_requires_uncached_auth(&candidates[end], cached_sessions)
        && identity_poll_priority(&candidates[end], cached_sessions).0 == bucket
        invariant
            n == candidates.len(),
            candidates@ == c,
            start <= end <= n,
            uncached_run_end(c, cached_sessions@, bucket, start as int) == uncached_run_end(c, cached_sessions@, bucket, end as int),
        decreases n - end,
    {
        end += 1;
    }
    let ghost run = c.subrange(start as int, end as int);
    let mut p: usize = start;
    while p < end && candidates[p].agent_id != cursor_id
        invariant
            n == candidates.len(),
            candidates@ == c,
            start <= p <= end <= n,
            run == c.subrange(start as int, end as int),
            position_of_id(run, cursor_id, 0) == position_of_id(run, cursor_id, p - start),
        decreases end - p,
    {
        assert(run[p - start] == c[p as int]);
        p += 1;
    }
    if p >= end {
        proof { lemma_position(run, cursor_id, (p - start) as int); }
        return;
    }
    proof {
        assert(run[p - start] == c[p as int]);
    }
    let count = end - start;
    let rotation = (p - start + 1) % count;
    let mut result: Vec<AgentIdentity> = Vec::new();
    let mut i: usize = 0;
    while i < start
        invariant
            candidates@ == c,
            i <= start < end <= n == candidates.len(),
            result@ == c.subrange(0, i as int),
        decreases start - i,
    {
        result.push(candidates[i]);
        i += 1;
        assert(result@ =~= c.subrange(0, i as int));
    }
    let mut k: usize = rotation;
    while k < count
        invariant
            candidates@ == c,
            start < end <= n == candidates.len(),
            count == end - start,
            rotation <= k <= count,
            run == c.subrange(start as int, end as int),
            result@ == c.subrange(0, start as int) + run.subrange(rotation as int, k as int),
        decreases count - k,
    {
        result.push(candidates[start + k]);
        k += 1;
        assert(result@ =~= c.subrange(0, start as int) + run.subrange(rotation as int, k as int));
    }
    let mut k: usize = 0;
    while k < rotation
        invariant
            candidates@ == c,
            start < end <= n == candidates.len(),
            count == end - start,
            rotation < count,
            k <= rotation,
            run == c.subrange(start as int, end as int),
            result@ == c.subrange(0, start as int) + run.subrange(rotation as int, count as int) + run.subrange(0, k as int),
        decreases rotation - k,
    {
        result.push(candidates[start + k]);
        k += 1;
        assert(result@ =~= c.subrange(0, start as int) + run.subrange(rotation as int, count as int) + run.subrange(0, k as int));
    }
    let mut i: usize = end;
    while i < n
        invariant
            candidates@ == c,
            end <= i <= n == candidates.len(),
            result@ == c.subrange(0, start as int) + rotate_left(run, rotation as int) + c.subrange(end as int, i as int),
        decreases n - i,
    {
        result.push(candidates[i]);
        i += 1;
        assert(result@ =~= c.subrange(0, start as int) + rotate_left(run, rotation as int) + c.subrange(end as int, i as int));
    }
    proof {
        lemma_first_uncached(c, cached_sessions@, start as int);
        lemma_run_end(c, cached_sessions@, bucket, end as int);
        assert(result@ =~= c.subrange(0, start as int) + rotate_left(run, rotation as int) + c.subrange(end as int, n as int));
    }
    *candidates = result;
}


/// Terminal status of a harness run as reported to the server.
#[derive(Debug, Clone, Copy, PartialEq, Eq, Structural)]
pub enum HarnessRunStatus {
    Succeeded,
    Failed,
    Cancelled,
}

/// API spelling of a run status.
pub open spec fn spec_status_api_value(status: HarnessRunStatus) -> Seq<char> {
    match status {
        HarnessRunStatus::Succeeded => "succeeded"@,
        HarnessRunStatus::Failed => "failed"@,
        HarnessRunStatus::Cancelled => "cancelled"@,
    }
}

impl HarnessRunStatus {
    /// The status value sent to the server.
    pub fn as_api_value(self) -> (v: &'static str)
        ensures
            v@ == spec_status_api_value(self),
    {
        match self {
            HarnessRunStatus::Succeeded => "succeeded",
            HarnessRunStatus::Failed => "failed",
            HarnessRunStatus::Cancelled => "cancelled",
        }
    }

    /// Every status but success must carry a failure code.
    pub fn requires_failure_code(self) -> (r: bool)
        ensures
            r == (self != HarnessRunStatus::Succeeded),
    {
        !matches!(self, HarnessRunStatus::Succeeded)
    }
}

/// The lease version and expiry last confirmed by the server.
#[derive(Debug, Clone, Copy)]
pub struct RunLeaseState {
    pub version: i64,
    /// Lease expiry, milliseconds since the Unix epoch.
    pub lease_expires_at_ms: i64,
}

/// A harness result tied to the lease under which it is reported.
#[derive(Debug)]
pub struct VersionedHarnessOutput {
    pub status: HarnessRunStatus,
    pub summary: String,
    pub failure_code: Option<String>,
    pub lease: RunLeaseState,
}

impl VersionedHarnessOutput {
    /// The result of a harness that ran to completion.
    pub fn new(output: crate::harness::HarnessOutput, lease: RunLeaseState) -> (r: Self)
        ensures
            r.status == (if output.succeeded { HarnessRunStatus::Succeeded } else { HarnessRunStatus::Failed }),
            r.summary@ == output.summary@,
            r.failure_code == output.failure_code,
            r.lease == lease,
    {
        VersionedHarnessOutput {
            status: if output.succeeded { HarnessRunStatus::Succeeded } else { HarnessRunStatus::Failed },
            summary: output.summary,
            failure_code: output.failure_code,
            lease,
        }
    }

    /// A run that failed with `summary` and `failure_code`.
    pub fn failed(summary: &str, failure_code: &str, lease: RunLeaseState) -> (r: Self)
        ensures
            r.status == HarnessRunStatus::Failed,
            r.summary@ == summary@,
            r.failure_code matches Some(c) && c@ == failure_code@,
            r.lease == lease,
    {
        VersionedHarnessOutput {
            status: HarnessRunStatus::Failed,
            summary: owned(summary),
            failure_code: Some(owned(failure_code)),
            lease,
        }
    }

    /// A run stopped because the service shut down.
    pub fn cancelled(lease: RunLeaseState) -> (r: Self)
        ensures
            r.status == HarnessRunStatus::Cancelled,
            r.summary@ == "The agent service shut down before Codex execution completed."@,
            r.failure_code matches Some(c) && c@ == "service_shutdown"@,
            r.lease == lease,
    {
        VersionedHarnessOutput {
            status: HarnessRunStatus::Cancelled,
            summary: owned("The agent service shut down before Codex execution completed."),
            failure_code: Some(owned("service_shutdown")),
            lease,
        }
    }

    /// The failure code reported with this result: none on success, the
    /// recorded code otherwise, or `harness_failed` when none was recorded.
    pub fn reported_failure_code(&self) -> (code: Option<String>)
        ensures
            self.status == HarnessRunStatus::Succeeded ==> code is None,
            self.status != HarnessRunStatus::Succeeded ==> (code matches Some(c) && c@ == (match self.failure_code {
                Some(f) => f@,
                None => "harness_failed"@,
            })),
    {
        if !self.status.requires_failure_code() {
            return None;
        }
        match &self.failure_code {
            Some(f) => Some(owned(f.as_str())),
            None => Some(owned("harness_failed")),
        }
    }
}

/// Length in hex digits of an object identifier in a git object format.
pub open spec fn spec_git_object_id_length(format: Seq<char>) -> Option<usize> {
    if format == "sha1"@ {
        Some(40)
    } else if format == "sha256"@ {
        Some(64)
    } else {
        None
    }
}

/// Revision length for git's object format, rejecting unknown formats.
pub fn git_object_id_length(object_format: &str) -> (r: Result<usize, PublicError>)
    ensures
        match spec_git_object_id_length(object_format@) {
            Some(n) => r == Ok::<usize, PublicError>(n),
            None => r matches Err(e) && e.code@ == "validation"@
                && e.message@ == "git returned an unsupported object format: "@ + object_format@,
        },
{
    if str_eq(object_format, "sha1") {
        Ok(40)
    } else if str_eq(object_format, "sha256") {
        Ok(64)
    } else {
        let mut message: Vec<char> = Vec::new();
        push_str(&mut message, "git returned an unsupported object format: ");
        push_str(&mut message, object_format);
        Err(PublicError::validation(string_of(&message)))
    }
}

/// An ASCII hexadecimal digit, either case.
pub open spec fn is_hex_digit_char(c: char) -> bool {
    ('0' <= c && c <= '9') || ('a' <= c && c <= 'f') || ('A' <= c && c <= 'F')
}

/// A revision as printed by git: trimmed, exactly the format's length, and
/// only hexadecimal digits.
pub open spec fn spec_valid_revision(revision: Seq<char>, expected_length: usize) -> bool {
    &&& crate::text::trim(revision).len() == expected_length
    &&& forall|i: int| 0 <= i < crate::text::trim(revision).len() ==> is_hex_digit_char(#[trigger] crate::text::trim(revision)[i])
}

/// Validates git's `rev-parse HEAD` output and returns the trimmed revision.
pub fn validate_revision(output: &str, expected_length: usize) -> (r: Result<String, PublicError>)
    ensures
        spec_valid_revision(output@, expected_length) ==> (r matches Ok(rev) && rev@ == crate::text::trim(output@)),
        !spec_valid_revision(output@, expected_length) ==> (r matches Err(e) && e.code@ == "unexpected"@
            && e.message@ == "git returned an invalid source revision"@),
{
    let chars = crate::text::chars_of(output);
    let trimmed = crate::text::trim_chars(&chars);
    if trimmed.len() != expected_length {
        return Err(PublicError::unexpected(owned("git returned an invalid source revision")));
    }
    let mut i: usize = 0;
    while i < trimmed.len()
        invariant
            i <= trimmed.len(),
            forall|j: int| 0 <= j < i ==> is_hex_digit_char(#[trigger] trimmed@[j]),
            trimmed@ == crate::text::trim(output@),
        decreases trimmed.len() - i,
    {
        let c = trimmed[i];
        if !(('0' <= c && c <= '9') || ('a' <= c && c <= 'f') || ('A' <= c && c <= 'F')) {
            assert(trimmed@ == crate::text::trim(output@));
            assert(!is_hex_digit_char(crate::text::trim(output@)[i as int]));
            return Err(PublicError::unexpected(owned("git returned an invalid source revision")));
        }
        i += 1;
    }
    Ok(string_of(&trimmed))
}

/// A run finished during one poll.
#[derive(Debug)]
pub struct CompletedRun {
    pub agent_id: u128,
    pub run_id: u128,
    pub status: String,
    pub worktree: Option<String>,
}

/// An identity whose poll failed.
#[derive(Debug)]
pub struct PollFailure {
    pub agent_id: u128,
    pub message: String,
}

/// What one poll over the local identities observed.
#[derive(Debug)]
pub struct PollOutcome {
    pub configured_identities: usize,
    pub active_identities: usize,
    pub completed_runs: Vec<CompletedRun>,
    pub failures: Vec<PollFailure>,
    pub unconfirmed_terminal_runs: usize,
}

/// Number of completed runs whose status is not `succeeded`.
pub open spec fn unsuccessful_count(runs: Seq<CompletedRun>) -> nat
    decreases runs.len(),
{
    if runs.len() == 0 {
        0
    } else {
        unsuccessful_count(runs.drop_last()) + if runs.last().status@ == "succeeded"@ { 0nat } else { 1nat }
    }
}

proof fn lemma_unsuccessful_bound(runs: Seq<CompletedRun>)
    ensures
        unsuccessful_count(runs) <= runs.len(),
    decreases runs.len(),
{
    if runs.len() > 0 {
        lemma_unsuccessful_bound(runs.drop_last());
    }
}

/// Result of a one-shot poll: it fails when a terminal state could not be
/// confirmed, when any identity poll failed, or when any run did not
/// succeed, in that order of precedence.
pub open spec fn spec_once_outcome(outcome: PollOutcome) -> Result<(), Seq<char>> {
    if outcome.unconfirmed_terminal_runs > 0 {
        Err("agent run completion could not be confirmed before its lease deadline"@)
    } else if outcome.failures.len() > 0 {
        Err(decimal(outcome.failures.len() as nat) + " agent identity poll(s) failed"@)
    } else if unsuccessful_count(outcome.completed_runs@) > 0 {
        Err(decimal(unsuccessful_count(outcome.completed_runs@)) + " agent run(s) completed unsuccessfully"@)
    } else {
        Ok(())
    }
}

/// Decides whether a `--once` poll succeeded.
pub fn validate_once_outcome(outcome: &PollOutcome) -> (r: Result<(), PublicError>)
    ensures
        match spec_once_outcome(*outcome) {
            Ok(()) => r is Ok,
            Err(m) => r matches Err(e) && e.code@ == "unexpected"@ && e.message@ == m,
        },
{
    if outcome.unconfirmed_terminal_runs > 0 {
        return Err(PublicError::unexpected(owned("agent run completion could not be confirmed before its lease deadline")));
    }
    if outcome.failures.len() > 0 {
        let mut message: Vec<char> = Vec::new();
        push_decimal(&mut message, outcome.failures.len() as u64);
        push_str(&mut message, " agent identity poll(s) failed");
        return Err(PublicError::unexpected(string_of(&message)));
    }
    let mut unsuccessful: usize = 0;
    let mut i: usize = 0;
    while i < outcome.completed_runs.len()
        invariant
            i <= outcome.completed_runs.len(),
            unsuccessful == unsuccessful_count(outcome.completed_runs@.subrange(0, i as int)),
            unsuccessful <= i,
        decreases outcome.completed_runs.len() - i,
    {
        proof {
            let p = outcome.completed_runs@.subrange(0, i + 1);
            assert(p.drop_last() =~= outcome.completed_runs@.subrange(0, i as int));
        }
        if !str_eq(outcome.completed_runs[i].status.as_str(), "succeeded") {
            unsuccessful += 1;
        }
        i += 1;
    }
    assert(outcome.completed_runs@.subrange(0, outcome.completed_runs.len() as int) =~= outcome.completed_runs@);
    if unsuccessful > 0 {
        let mut message: Vec<char> = Vec::new();
        push_decimal(&mut message, unsuccessful as u64);
        push_str(&mut message, " agent run(s) completed unsuccessfully");
        return Err(PublicError::unexpected(string_of(&message)));
    }
    Ok(())
}


/// Backoff never shrinks as consecutive failures grow, and never exceeds
/// its maximum.
pub proof fn lemma_backoff_monotone(base: u64, maximum: u64, failures: u32, more_failures: u32)
    requires
        failures <= more_failures,
    ensures
        spec_exponential_backoff(base, maximum, failures) <= spec_exponential_backoff(base, maximum, more_failures),
        spec_exponential_backoff(base, maximum, more_failures) <= maximum,
{
    let e1: nat = if failures == 0 { 0nat } else if failures - 1 > 16 { 16nat } else { (failures - 1) as nat };
    let e2: nat = if more_failures == 0 { 0nat } else if more_failures - 1 > 16 { 16nat } else { (more_failures - 1) as nat };
    assert(e1 <= e2);
    lemma_pow2_mono(e1, e2);
    assert(base as int * pow2(e1) as int <= base as int * pow2(e2) as int) by (nonlinear_arith)
        requires
            pow2(e1) <= pow2(e2),
    ;
}

/// A retry never comes sooner than the server asked: both the run-scoped
/// and the identity retry delays are at least the server's retry-after.
pub proof fn lemma_retry_honors_server_delay(base: u64, failures: u32, retry_after_ms: Option<u64>, id: u128)
    ensures
        spec_run_retry_delay(base, failures, retry_after_ms, id) >= retry_after_ms.unwrap_or(0),
        spec_identity_retry_delay(base, failures, retry_after_ms, id) >= retry_after_ms.unwrap_or(0),
{
}

/// Rotating the candidates that need fresh authentication only reorders
/// them: the same identities, each as often, and those before and after the
/// rotated run keep their places.
pub proof fn lemma_rotation_is_a_permutation(c: Seq<AgentIdentity>, cached: Seq<u128>, cursor: Option<u128>)
    ensures
        spec_rotate_uncached(c, cached, cursor).len() == c.len(),
        spec_rotate_uncached(c, cached, cursor).to_multiset() == c.to_multiset(),
        forall|i: int| 0 <= i < first_uncached_from(c, cached, 0) && i < c.len() ==>
            #[trigger] spec_rotate_uncached(c, cached, cursor)[i] == c[i],
{
    let start = first_uncached_from(c, cached, 0);
    lemma_first_uncached(c, cached, 0);
    if cursor is Some && start < c.len() {
        let id = cursor->Some_0;
        let end = uncached_run_end(c, cached, spec_poll_bucket(c[start], cached), start);
        lemma_run_end(c, cached, spec_poll_bucket(c[start], cached), start);
        let run = c.subrange(start, end);
        let p = position_of_id(run, id, 0);
        lemma_position(run, id, 0);
        if p < run.len() {
            let k = (p + 1) % run.len() as int;
            let pre = c.subrange(0, start);
            let post = c.subrange(end, c.len() as int);
            let a = run.subrange(k, run.len() as int);
            let b = run.subrange(0, k);
            assert(run =~= b + a);
            vstd::seq_lib::lemma_multiset_commutative(a, b);
            vstd::seq_lib::lemma_multiset_commutative(b, a);
            assert(rotate_left(run, k).to_multiset() =~= run.to_multiset());
            vstd::seq_lib::lemma_multiset_commutative(pre, rotate_left(run, k));
            vstd::seq_lib::lemma_multiset_commutative(pre + rotate_left(run, k), post);
            vstd::seq_lib::lemma_multiset_commutative(pre, run);
            vstd::seq_lib::lemma_multiset_commutative(pre + run, post);
            assert(c =~= pre + run + post);
            assert(spec_rotate_uncached(c, cached, cursor) == pre + rotate_left(run, k) + post);
        }
    }
}

} // verus!
