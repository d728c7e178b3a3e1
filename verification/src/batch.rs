use crate::checkpoint::OperationKind;
use crate::error::{CliError, PublicError};
use crate::text::{chars_of, owned, push_decimal, push_str, str_eq, string_of, decimal};
use vstd::prelude::*;

verus! {

/// Error code of an interruption while credentials may have been rotated.
pub const SESSION_OUTCOME_AMBIGUOUS: &'static str = "session_outcome_ambiguous";

/// How a batch operation ended.
#[derive(PartialEq, Eq, Structural, Clone, Copy, Debug)]
pub enum OutcomeStatus {
    Succeeded,
    Failed,
    Skipped,
    Planned,
    Interrupted,
}

/// The public message for an operation error code; the error's own
/// message may echo input and is never reported.
pub open spec fn spec_sanitized_operation_error(code: Seq<char>) -> Seq<char> {
    if code == "validation"@ {
        "operation input or target is invalid"@
    } else if code == "not_found"@ {
        "operation target was not found"@
    } else if code == "conflict"@ {
        "operation conflicts with current resource state"@
    } else if code == "authentication"@ {
        "authentication is required"@
    } else if code == "forbidden"@ {
        "operation is not permitted"@
    } else if code == "entitlement"@ {
        "operation requires a different entitlement"@
    } else if code == "rate_limited"@ {
        "operation was rate limited"@
    } else if code == "request_timeout"@ || code == "transport_timeout"@ {
        "operation timed out"@
    } else if code == "outcome_ambiguous"@ {
        "operation outcome is ambiguous; inspect the affected resource before retrying"@
    } else if code == "session_outcome_ambiguous"@ {
        "credential rotation outcome is ambiguous; sign in again if authentication no longer works"@
    } else if code == "checkpoint_conflict"@ {
        "checkpoint state conflicts with this batch"@
    } else if code == "checkpoint_io"@ {
        "checkpoint durability operation failed"@
    } else {
        "operation failed"@
    }
}

/// The fixed public message for an operation error with code `code`.
pub fn sanitized_operation_error(code: &str) -> (m: &'static str)
    ensures
        m@ == spec_sanitized_operation_error(code@),
{
    if str_eq(code, "validation") {
        "operation input or target is invalid"
    } else if str_eq(code, "not_found") {
        "operation target was not found"
    } else if str_eq(code, "conflict") {
        "operation conflicts with current resource state"
    } else if str_eq(code, "authentication") {
        "authentication is required"
    } else if str_eq(code, "forbidden") {
        "operation is not permitted"
    } else if str_eq(code, "entitlement") {
        "operation requires a different entitlement"
    } else if str_eq(code, "rate_limited") {
        "operation was rate limited"
    } else if str_eq(code, "request_timeout") || str_eq(code, "transport_timeout") {
        "operation timed out"
    } else if str_eq(code, "outcome_ambiguous") {
        "operation outcome is ambiguous; inspect the affected resource before retrying"
    } else if str_eq(code, "session_outcome_ambiguous") {
        "credential rotation outcome is ambiguous; sign in again if authentication no longer works"
    } else if str_eq(code, "checkpoint_conflict") {
        "checkpoint state conflicts with this batch"
    } else if str_eq(code, "checkpoint_io") {
        "checkpoint durability operation failed"
    } else {
        "operation failed"
    }
}

/// The name of an operation kind in batch input and output.
pub fn operation_name(kind: OperationKind) -> (n: &'static str)
    ensures
        n@ == (if kind == OperationKind::TaskCreate { "task.create"@ } else { "task.update"@ }),
{
    match kind {
        OperationKind::TaskCreate => "task.create",
        OperationKind::TaskUpdate => "task.update",
    }
}

/// The name of an outcome status in batch output.
pub open spec fn spec_status_name(status: OutcomeStatus) -> Seq<char> {
    match status {
        OutcomeStatus::Succeeded => "succeeded"@,
        OutcomeStatus::Failed => "failed"@,
        OutcomeStatus::Skipped => "skipped"@,
        OutcomeStatus::Planned => "planned"@,
        OutcomeStatus::Interrupted => "interrupted"@,
    }
}

/// The name of an outcome status in batch output.
pub fn outcome_status_name(status: OutcomeStatus) -> (n: &'static str)
    ensures
        n@ == spec_status_name(status),
{
    match status {
        OutcomeStatus::Succeeded => "succeeded",
        OutcomeStatus::Failed => "failed",
        OutcomeStatus::Skipped => "skipped",
        OutcomeStatus::Planned => "planned",
        OutcomeStatus::Interrupted => "interrupted",
    }
}

/// Whether a flag is unset; unset flags are left out of output records.
pub fn is_false(value: &bool) -> (r: bool)
    ensures
        r == !*value,
{
    !*value
}

/// The reported error of an operation: its code and fixed public message.
#[derive(Debug)]
pub struct OperationError {
    pub code: String,
    pub message: String,
}

/// What a mutation returned of the task it created or updated.
#[derive(Debug)]
pub struct TaskSummary {
    pub id: u128,
    pub reference_number: Option<i64>,
    pub reference: Option<String>,
    pub updated_at: i128,
}

/// How one batch operation ended, as reported to the operator.
#[derive(Debug)]
pub struct OperationOutcome {
    pub index: usize,
    pub operation_id: String,
    pub kind: OperationKind,
    pub status: OutcomeStatus,
    pub project_id: Option<u128>,
    pub task_id: Option<u128>,
    pub task_reference_number: Option<i64>,
    pub task_reference: Option<String>,
    pub updated_at: Option<i128>,
    pub resumed: bool,
    pub error: Option<OperationError>,
    pub fatal_exit_code: Option<i32>,
}

/// The error code an outcome reports, if any.
pub open spec fn error_code(o: OperationOutcome) -> Option<Seq<char>> {
    match o.error {
        Some(e) => Some(e.code@),
        None => None,
    }
}

/// An error record with `code` and its fixed public message.
pub fn operation_error(code: &str) -> (e: OperationError)
    ensures
        e.code@ == code@,
        e.message@ == spec_sanitized_operation_error(code@),
{
    OperationError { code: owned(code), message: owned(sanitized_operation_error(code)) }
}

/// The outcome fields that identify an operation and its target.
pub open spec fn identifies(o: OperationOutcome, index: usize, operation_id: Seq<char>, kind: OperationKind, project_id: Option<u128>, task_id: Option<u128>) -> bool {
    o.index == index && o.operation_id@ == operation_id && o.kind == kind && o.project_id == project_id && o.task_id == task_id
}

impl OperationOutcome {
    /// A mutation that committed, with the task it produced.
    pub fn succeeded(index: usize, operation_id: String, kind: OperationKind, project_id: u128, task: TaskSummary, resumed: bool) -> (o: Self)
        ensures
            identifies(o, index, operation_id@, kind, Some(project_id), Some(task.id)),
            o.status == OutcomeStatus::Succeeded,
            o.task_reference_number == task.reference_number,
            o.task_reference == task.reference,
            o.updated_at == Some(task.updated_at),
            o.resumed == resumed,
            o.error is None,
            o.fatal_exit_code is None,
    {
        OperationOutcome {
            index,
            operation_id,
            kind,
            status: OutcomeStatus::Succeeded,
            project_id: Some(project_id),
            task_id: Some(task.id),
            task_reference_number: task.reference_number,
            task_reference: task.reference,
            updated_at: Some(task.updated_at),
            resumed,
            error: None,
            fatal_exit_code: None,
        }
    }

    /// An operation a resumed batch finds already committed.
    pub fn skipped(index: usize, operation_id: String, kind: OperationKind, project_id: u128, task_id: u128, updated_at: i128) -> (o: Self)
        ensures
            identifies(o, index, operation_id@, kind, Some(project_id), Some(task_id)),
            o.status == OutcomeStatus::Skipped,
            o.task_reference_number is None,
            o.task_reference is None,
            o.updated_at == Some(updated_at),
            o.resumed,
            o.error is None,
            o.fatal_exit_code is None,
    {
        OperationOutcome {
            index,
            operation_id,
            kind,
            status: OutcomeStatus::Skipped,
            project_id: Some(project_id),
            task_id: Some(task_id),
            task_reference_number: None,
            task_reference: None,
            updated_at: Some(updated_at),
            resumed: true,
            error: None,
            fatal_exit_code: None,
        }
    }

    /// An operation a dry run planned without sending.
    pub fn planned(index: usize, operation_id: String, kind: OperationKind, project_id: u128, task_id: Option<u128>) -> (o: Self)
        ensures
            identifies(o, index, operation_id@, kind, Some(project_id), task_id),
            o.status == OutcomeStatus::Planned,
            o.task_reference_number is None,
            o.task_reference is None,
            o.updated_at is None,
            !o.resumed,
            o.error is None,
            o.fatal_exit_code is None,
    {
        OperationOutcome {
            index,
            operation_id,
            kind,
            status: OutcomeStatus::Planned,
            project_id: Some(project_id),
            task_id,
            task_reference_number: None,
            task_reference: None,
            updated_at: None,
            resumed: false,
            error: None,
            fatal_exit_code: None,
        }
    }

    /// An operation that failed with a service error; only the error's code
    /// is reported, with its fixed public message.
    pub fn failed_runtime_parts(index: usize, operation_id: String, kind: OperationKind, project_id: Option<u128>, task_id: Option<u128>, error: PublicError) -> (o: Self)
        ensures
            identifies(o, index, operation_id@, kind, project_id, task_id),
            o.status == OutcomeStatus::Failed,
            o.task_reference_number is None,
            o.task_reference is None,
            o.updated_at is None,
            !o.resumed,
            o.error matches Some(e) && e.code@ == error.code@ && e.message@ == spec_sanitized_operation_error(error.code@),
            o.fatal_exit_code is None,
    {
        OperationOutcome {
            index,
            operation_id,
            kind,
            status: OutcomeStatus::Failed,
            project_id,
            task_id,
            task_reference_number: None,
            task_reference: None,
            updated_at: None,
            resumed: false,
            error: Some(operation_error(error.code.as_str())),
            fatal_exit_code: None,
        }
    }

    /// An operation stopped by a command error, which also ends the batch
    /// with that error's exit code.
    pub fn failed_cli(index: usize, operation_id: String, kind: OperationKind, project_id: Option<u128>, task_id: Option<u128>, error: CliError) -> (o: Self)
        ensures
            identifies(o, index, operation_id@, kind, project_id, task_id),
            o.status == OutcomeStatus::Failed,
            o.task_reference_number is None,
            o.task_reference is None,
            o.updated_at is None,
            !o.resumed,
            o.error matches Some(e) && e.code@ == error.code@ && e.message@ == spec_sanitized_operation_error(error.code@),
            o.fatal_exit_code == Some(error.exit_code),
    {
        OperationOutcome {
            index,
            operation_id,
            kind,
            status: OutcomeStatus::Failed,
            project_id,
            task_id,
            task_reference_number: None,
            task_reference: None,
            updated_at: None,
            resumed: false,
            error: Some(operation_error(error.code.as_str())),
            fatal_exit_code: Some(error.exit_code),
        }
    }

    /// An operation interrupted at a durable boundary: nothing it sent can
    /// have committed unseen.
    pub fn interrupted_parts(index: usize, operation_id: String, kind: OperationKind, project_id: Option<u128>, task_id: Option<u128>) -> (o: Self)
        ensures
            identifies(o, index, operation_id@, kind, project_id, task_id),
            o.status == OutcomeStatus::Interrupted,
            o.task_reference_number is None,
            o.task_reference is None,
            o.updated_at is None,
            !o.resumed,
            o.error is None,
            o.fatal_exit_code == Some(130i32),
    {
        OperationOutcome {
            index,
            operation_id,
            kind,
            status: OutcomeStatus::Interrupted,
            project_id,
            task_id,
            task_reference_number: None,
            task_reference: None,
            updated_at: None,
            resumed: false,
            error: None,
            fatal_exit_code: Some(130),
        }
    }

    /// An operation interrupted after its mutation may have committed.
    pub fn ambiguous_interrupted_parts(index: usize, operation_id: String, kind: OperationKind, project_id: Option<u128>, task_id: Option<u128>) -> (o: Self)
        ensures
            identifies(o, index, operation_id@, kind, project_id, task_id),
            o.status == OutcomeStatus::Interrupted,
            o.task_reference_number is None,
            o.task_reference is None,
            o.updated_at is None,
            !o.resumed,
            o.error matches Some(e) && e.code@ == "outcome_ambiguous"@
                && e.message@ == spec_sanitized_operation_error("outcome_ambiguous"@),
            o.fatal_exit_code == Some(130i32),
    {
        OperationOutcome {
            index,
            operation_id,
            kind,
            status: OutcomeStatus::Interrupted,
            project_id,
            task_id,
            task_reference_number: None,
            task_reference: None,
            updated_at: None,
            resumed: false,
            error: Some(operation_error("outcome_ambiguous")),
            fatal_exit_code: Some(130),
        }
    }

    /// An operation interrupted while its credentials may have been
    /// rotated without a durable local replacement.
    pub fn session_ambiguous_interrupted_parts(index: usize, operation_id: String, kind: OperationKind, project_id: Option<u128>, task_id: Option<u128>) -> (o: Self)
        ensures
            identifies(o, index, operation_id@, kind, project_id, task_id),
            o.status == OutcomeStatus::Interrupted,
            o.task_reference_number is None,
            o.task_reference is None,
            o.updated_at is None,
            !o.resumed,
            o.error matches Some(e) && e.code@ == "session_outcome_ambiguous"@
                && e.message@ == spec_sanitized_operation_error("session_outcome_ambiguous"@),
            o.fatal_exit_code == Some(130i32),
    {
        OperationOutcome {
            index,
            operation_id,
            kind,
            status: OutcomeStatus::Interrupted,
            project_id,
            task_id,
            task_reference_number: None,
            task_reference: None,
            updated_at: None,
            resumed: false,
            error: Some(operation_error(SESSION_OUTCOME_AMBIGUOUS)),
            fatal_exit_code: Some(130),
        }
    }
}

/// How many operations ended in each status.
#[derive(Debug)]
pub struct OutcomeCounters {
    pub succeeded: usize,
    pub failed: usize,
    pub skipped: usize,
    pub planned: usize,
    pub interrupted: usize,
}

/// How many operations the counters account for.
pub open spec fn spec_processed(c: OutcomeCounters) -> int {
    c.succeeded + c.failed + c.skipped + c.planned + c.interrupted
}

/// The counters after one more outcome with `status`.
pub open spec fn counted(c: OutcomeCounters, status: OutcomeStatus) -> OutcomeCounters {
    match status {
        OutcomeStatus::Succeeded => OutcomeCounters { succeeded: (c.succeeded + 1) as usize, ..c },
        OutcomeStatus::Failed => OutcomeCounters { failed: (c.failed + 1) as usize, ..c },
        OutcomeStatus::Skipped => OutcomeCounters { skipped: (c.skipped + 1) as usize, ..c },
        OutcomeStatus::Planned => OutcomeCounters { planned: (c.planned + 1) as usize, ..c },
        OutcomeStatus::Interrupted => OutcomeCounters { interrupted: (c.interrupted + 1) as usize, ..c },
    }
}

impl OutcomeCounters {
    /// No outcomes yet.
    pub fn new() -> (c: Self)
        ensures
            c.succeeded == 0 && c.failed == 0 && c.skipped == 0 && c.planned == 0 && c.interrupted == 0,
    {
        OutcomeCounters { succeeded: 0, failed: 0, skipped: 0, planned: 0, interrupted: 0 }
    }

    /// Counts one outcome under its status.
    pub fn record(&mut self, outcome: &OperationOutcome)
        requires
            spec_processed(*old(self)) < usize::MAX,
        ensures
            *final(self) == counted(*old(self), outcome.status),
            spec_processed(*final(self)) == spec_processed(*old(self)) + 1,
    {
        match outcome.status {
            OutcomeStatus::Succeeded => self.succeeded += 1,
            OutcomeStatus::Failed => self.failed += 1,
            OutcomeStatus::Skipped => self.skipped += 1,
            OutcomeStatus::Planned => self.planned += 1,
            OutcomeStatus::Interrupted => self.interrupted += 1,
        }
    }

    /// How many outcomes were counted.
    pub fn processed(&self) -> (n: usize)
        requires
            spec_processed(*self) <= usize::MAX,
        ensures
            n == spec_processed(*self),
    {
        self.succeeded + self.failed + self.skipped + self.planned + self.interrupted
    }
}

/// The exit code of a batch after two stopping outcomes: a checkpoint
/// failure (4) always wins, otherwise the first code seen.
pub open spec fn spec_merge_fatal(current: Option<i32>, next: Option<i32>) -> Option<i32> {
    if current == Some(4i32) || next == Some(4i32) {
        Some(4i32)
    } else if current is Some {
        current
    } else {
        next
    }
}

/// Combines the batch's stopping exit code with that of the next outcome.
pub fn merge_fatal_exit_code(current: Option<i32>, next: Option<i32>) -> (r: Option<i32>)
    ensures
        r == spec_merge_fatal(current, next),
{
    match (current, next) {
        (Some(4), _) | (_, Some(4)) => Some(4),
        (Some(current), _) => Some(current),
        (None, next) => next,
    }
}

/// The message of a batch stopped by a second signal: whether sent
/// mutations may have committed, and whether a checkpoint can be resumed.
pub open spec fn spec_forced_interruption_message(checkpoint_exists: bool, ambiguous_interruption: bool) -> Seq<char> {
    if ambiguous_interruption && checkpoint_exists {
        "batch force-stopped after a second signal; one or more sent mutations may have committed, so resume from the checkpoint before retrying"@
    } else if ambiguous_interruption {
        "batch force-stopped after a second signal; one or more sent mutations may have committed, so inspect the affected resources before retrying"@
    } else if checkpoint_exists {
        "batch force-stopped after a second signal before the interrupted mutations were sent; resume from the checkpoint before retrying"@
    } else {
        "batch force-stopped after a second signal before the interrupted mutations were sent"@
    }
}

/// Whether `t` occurs in `s`.
pub open spec fn has_substring(s: Seq<char>, t: Seq<char>) -> bool
    decreases s.len(),
{
    if s.len() < t.len() {
        false
    } else if s.subrange(0, t.len() as int) == t {
        true
    } else if s.len() == 0 {
        false
    } else {
        has_substring(s.drop_first(), t)
    }
}

proof fn lemma_substring_at(s: Seq<char>, t: Seq<char>, k: int)
    requires
        0 <= k,
        k + t.len() <= s.len(),
        s.subrange(k, k + t.len()) == t,
    ensures
        has_substring(s, t),
    decreases k,
{
    if k > 0 && s.subrange(0, t.len() as int) != t {
        assert(s.drop_first().subrange(k - 1, k - 1 + t.len()) =~= s.subrange(k, k + t.len()));
        lemma_substring_at(s.drop_first(), t, k - 1);
    }
}

proof fn lemma_missing_char(s: Seq<char>, t: Seq<char>, j: int)
    requires
        0 <= j < t.len(),
        forall|i: int| 0 <= i < s.len() ==> s[i] != t[j],
    ensures
        !has_substring(s, t),
    decreases s.len(),
{
    if s.len() >= t.len() {
        assert(s.subrange(0, t.len() as int)[j] == s[j]);
        if s.len() > 0 {
            lemma_missing_char(s.drop_first(), t, j);
        }
    }
}

/// The message of a batch stopped by a second signal says so first, names
/// the checkpoint exactly when there is one, and warns that sent mutations
/// may have committed exactly when the interruption is ambiguous.
pub proof fn lemma_forced_interruption_messages(checkpoint_exists: bool, ambiguous_interruption: bool)
    ensures
        spec_forced_interruption_message(checkpoint_exists, ambiguous_interruption).subrange(0, 41)
            == "batch force-stopped after a second signal"@,
        has_substring(spec_forced_interruption_message(checkpoint_exists, ambiguous_interruption), "checkpoint"@)
            == checkpoint_exists,
        has_substring(spec_forced_interruption_message(checkpoint_exists, ambiguous_interruption), "may have committed"@)
            == ambiguous_interruption,
{
    let m = spec_forced_interruption_message(checkpoint_exists, ambiguous_interruption);
    reveal_strlit("batch force-stopped after a second signal");
    reveal_strlit("checkpoint");
    reveal_strlit("may have committed");
    if ambiguous_interruption && checkpoint_exists {
        reveal_strlit("batch force-stopped after a second signal; one or more sent mutations may have committed, so resume from the checkpoint before retrying");
        assert(m.subrange(0, 41) =~= "batch force-stopped after a second signal"@);
        assert(m.subrange(109, 119) =~= "checkpoint"@);
        lemma_substring_at(m, "checkpoint"@, 109);
        assert(m.subrange(70, 88) =~= "may have committed"@);
        lemma_substring_at(m, "may have committed"@, 70);
    } else if ambiguous_interruption {
        reveal_strlit("batch force-stopped after a second signal; one or more sent mutations may have committed, so inspect the affected resources before retrying");
        assert(m.subrange(0, 41) =~= "batch force-stopped after a second signal"@);
        lemma_missing_char(m, "checkpoint"@, 4);
        assert(m.subrange(70, 88) =~= "may have committed"@);
        lemma_substring_at(m, "may have committed"@, 70);
    } else if checkpoint_exists {
        reveal_strlit("batch force-stopped after a second signal before the interrupted mutations were sent; resume from the checkpoint before retrying");
        assert(m.subrange(0, 41) =~= "batch force-stopped after a second signal"@);
        assert(m.subrange(102, 112) =~= "checkpoint"@);
        lemma_substring_at(m, "checkpoint"@, 102);
        lemma_missing_char(m, "may have committed"@, 6);
    } else {
        reveal_strlit("batch force-stopped after a second signal before the interrupted mutations were sent");
        assert(m.subrange(0, 41) =~= "batch force-stopped after a second signal"@);
        lemma_missing_char(m, "checkpoint"@, 4);
        lemma_missing_char(m, "may have committed"@, 6);
    }
}

/// The message of a batch stopped by a second signal.
pub fn forced_interruption_message(checkpoint_exists: bool, ambiguous_interruption: bool) -> (m: &'static str)
    ensures
        m@ == spec_forced_interruption_message(checkpoint_exists, ambiguous_interruption),
{
    match (ambiguous_interruption, checkpoint_exists) {
        (true, true) => "batch force-stopped after a second signal; one or more sent mutations may have committed, so resume from the checkpoint before retrying",
        (true, false) => "batch force-stopped after a second signal; one or more sent mutations may have committed, so inspect the affected resources before retrying",
        (false, true) => "batch force-stopped after a second signal before the interrupted mutations were sent; resume from the checkpoint before retrying",
        (false, false) => "batch force-stopped after a second signal before the interrupted mutations were sent",
    }
}

/// Service errors after which the mutation certainly did not commit, so a
/// failure can be recorded in the checkpoint.
pub open spec fn spec_failure_is_definitive(code: Seq<char>) -> bool {
    code == "validation"@ || code == "not_found"@ || code == "entitlement"@
        || code == "payload_too_large"@ || code == "authentication"@ || code == "forbidden"@
}

/// Whether a failed mutation certainly did not commit.
pub fn execution_failure_is_definitive(error: &PublicError) -> (r: bool)
    ensures
        r == spec_failure_is_definitive(error.code@),
{
    let c = error.code.as_str();
    str_eq(c, "validation") || str_eq(c, "not_found") || str_eq(c, "entitlement")
        || str_eq(c, "payload_too_large") || str_eq(c, "authentication") || str_eq(c, "forbidden")
}

/// A failed mutation is definitive exactly for the service's validation,
/// not-found, entitlement, payload-too-large, authentication and forbidden
/// errors: the service refused it, so it did not commit. Every other code
/// (a conflict, a timeout, a transport failure, a server error) leaves the
/// outcome open.
pub proof fn lemma_definitive_failure_codes(code: Seq<char>)
    ensures
        code == "validation"@ ==> spec_failure_is_definitive(code),
        code == "not_found"@ ==> spec_failure_is_definitive(code),
        code == "entitlement"@ ==> spec_failure_is_definitive(code),
        code == "payload_too_large"@ ==> spec_failure_is_definitive(code),
        code == "authentication"@ ==> spec_failure_is_definitive(code),
        code == "forbidden"@ ==> spec_failure_is_definitive(code),
        spec_failure_is_definitive(code) ==> set!["validation"@, "not_found"@, "entitlement"@, "payload_too_large"@,
            "authentication"@, "forbidden"@].contains(code),
{
}

/// A resumed update whose original revision is no longer current cannot be
/// safely prepared again: a conflict then is a checkpoint safety failure.
pub fn resume_prepare_safety_error(kind: OperationKind, original_update_revision: Option<i128>, error: &PublicError) -> (r: Option<CliError>)
    ensures
        r is Some <==> (kind == OperationKind::TaskUpdate && original_update_revision is Some && error.code@ == "conflict"@),
        r matches Some(e) ==> e.code@ == "checkpoint_conflict"@ && e.exit_code == 4
            && e.message@ == "cannot safely resume task.update because its original revision is no longer current"@,
{
    if kind == OperationKind::TaskUpdate && original_update_revision.is_some() && str_eq(error.code.as_str(), "conflict") {
        Some(CliError::checkpoint_conflict(owned("cannot safely resume task.update because its original revision is no longer current")))
    } else {
        None
    }
}

/// Checks that a checkpoint recorded an operation of the kind the input
/// now describes.
pub fn ensure_checkpoint_kind(expected: OperationKind, stored: OperationKind) -> (r: Result<(), CliError>)
    ensures
        r is Ok <==> expected == stored,
        r matches Err(e) ==> e.code@ == "checkpoint_conflict"@
            && e.message@ == "checkpoint operation kind does not match canonical batch input"@,
{
    if expected != stored {
        return Err(CliError::checkpoint_conflict(owned("checkpoint operation kind does not match canonical batch input")));
    }
    Ok(())
}

/// The error of a batch interrupted while credentials may have been
/// rotated, with the operator's way out appended to `message`.
pub fn batch_session_ambiguous_interruption(message: &str) -> (e: CliError)
    ensures
        e.code@ == "session_outcome_ambiguous"@,
        e.exit_code == 130,
        e.message@ == message@ + "; the server may have rotated the session without a durable local replacement, so run 'sealtask auth login' if authentication no longer works"@,
{
    let mut m = chars_of(message);
    push_str(&mut m, "; the server may have rotated the session without a durable local replacement, so run 'sealtask auth login' if authentication no longer works");
    CliError::interrupted_session_ambiguous(string_of(&m))
}

/// What an interrupted credential refresh came to.
#[derive(Debug)]
pub enum CredentialRefreshWait {
    /// The refresh finished or stopped where nothing is left half-done.
    ReachedDurableBoundary,
    /// The refresh failed before it could have rotated the session.
    Failed(PublicError),
    /// The server may have rotated the session without a durable local
    /// replacement.
    SessionAmbiguous(&'static str),
}

/// Classifies how an interrupted credential refresh ended;
/// `may_have_rotated` says whether its error (if any) came after the server
/// may have rotated the session.
pub fn classify_interrupted_credential_refresh(result: Result<(), PublicError>, may_have_rotated: bool) -> (w: CredentialRefreshWait)
    ensures
        match result {
            Ok(_) => w is ReachedDurableBoundary,
            Err(e) => if e.code@ == "cancelled"@ {
                w is ReachedDurableBoundary
            } else if may_have_rotated {
                w matches CredentialRefreshWait::SessionAmbiguous(m)
                    && m@ == "batch credential refresh failed after the server may have rotated the session"@
            } else {
                w == CredentialRefreshWait::Failed(e)
            },
        },
{
    match result {
        Ok(_) => CredentialRefreshWait::ReachedDurableBoundary,
        Err(error) => if str_eq(error.code.as_str(), "cancelled") {
            CredentialRefreshWait::ReachedDurableBoundary
        } else if may_have_rotated {
            CredentialRefreshWait::SessionAmbiguous("batch credential refresh failed after the server may have rotated the session")
        } else {
            CredentialRefreshWait::Failed(error)
        },
    }
}

/// Totals reported at the end of a batch.
#[derive(Debug)]
pub struct BatchSummary {
    pub total: usize,
    pub succeeded: usize,
    pub failed: usize,
    pub skipped: usize,
    pub planned: usize,
    pub not_run: usize,
    pub interrupted_count: usize,
    pub interrupted: bool,
}

/// How command output is written.
#[derive(PartialEq, Eq, Structural, Clone, Copy, Debug)]
pub enum OutputFormat {
    Table,
    Json,
    JsonPretty,
    Jsonl,
}

/// Why a batch run cannot start with these options, if it cannot: batch
/// output is a record stream, so whole-document JSON is refused, and
/// resuming needs a checkpoint.
pub open spec fn spec_preflight_error(format: OutputFormat, resume: bool, has_checkpoint: bool) -> Option<(Seq<char>, Seq<char>, i32)> {
    if format == OutputFormat::Json || format == OutputFormat::JsonPretty {
        Some(("validation"@, "batch execution is a record stream; use table output or '--format jsonl'"@, crate::error::FAILURE_EXIT_CODE))
    } else if resume && !has_checkpoint {
        Some(("checkpoint_conflict"@, "--resume requires --checkpoint PATH"@, crate::error::CHECKPOINT_EXIT_CODE))
    } else {
        None
    }
}

/// Checks a batch run's options before anything is read.
pub fn batch_run_preflight(format: OutputFormat, resume: bool, has_checkpoint: bool) -> (r: Result<(), CliError>)
    ensures
        match spec_preflight_error(format, resume, has_checkpoint) {
            None => r is Ok,
            Some((code, message, exit_code)) => r matches Err(e) && e.code@ == code && e.message@ == message
                && e.exit_code == exit_code,
        },
{
    if format == OutputFormat::Json || format == OutputFormat::JsonPretty {
        return Err(CliError::from_public(PublicError::validation(owned(
            "batch execution is a record stream; use table output or '--format jsonl'",
        ))));
    }
    if resume && !has_checkpoint {
        return Err(CliError::checkpoint_conflict(owned("--resume requires --checkpoint PATH")));
    }
    Ok(())
}

/// The summary of a batch interrupted before any operation ran: every one
/// of its `total` operations is reported as not run.
pub fn interrupted_summary(total: usize) -> (s: BatchSummary)
    ensures
        s.total == total,
        s.succeeded == 0,
        s.failed == 0,
        s.skipped == 0,
        s.planned == 0,
        s.not_run == total,
        s.interrupted_count == 0,
        s.interrupted,
{
    BatchSummary { total, succeeded: 0, failed: 0, skipped: 0, planned: 0, not_run: total, interrupted_count: 0, interrupted: true }
}

/// The error of a batch interrupted before any mutation: before the
/// checkpoint was opened, or while it was being acquired.
pub fn preparation_interruption(during_checkpoint_acquisition: bool) -> (e: CliError)
    ensures
        e.code@ == "interrupted"@,
        e.exit_code == crate::error::INTERRUPTED_EXIT_CODE,
        e.message@ == if during_checkpoint_acquisition {
            "batch interrupted during checkpoint acquisition"@
        } else {
            "batch interrupted before checkpoint or mutation processing"@
        },
{
    if during_checkpoint_acquisition {
        CliError::interrupted(owned("batch interrupted during checkpoint acquisition"))
    } else {
        CliError::interrupted(owned("batch interrupted before checkpoint or mutation processing"))
    }
}

/// `true` or `false`.
pub open spec fn bool_text(b: bool) -> Seq<char> {
    if b { "true"@ } else { "false"@ }
}

/// The summary line a table-format batch prints.
pub open spec fn spec_summary_line(s: BatchSummary) -> Seq<char> {
    "summary  total="@ + decimal(s.total as nat) + " succeeded="@ + decimal(s.succeeded as nat)
        + " failed="@ + decimal(s.failed as nat) + " skipped="@ + decimal(s.skipped as nat)
        + " planned="@ + decimal(s.planned as nat) + " not-run="@ + decimal(s.not_run as nat)
        + " interrupted-count="@ + decimal(s.interrupted_count as nat) + " interrupted="@ + bool_text(s.interrupted)
}

/// The summary line that a table-format batch writes at its end.
pub fn emit_summary(summary: &BatchSummary) -> (line: String)
    ensures
        line@ == spec_summary_line(*summary),
{
    let mut m = chars_of("summary  total=");
    push_decimal(&mut m, summary.total as u64);
    push_str(&mut m, " succeeded=");
    push_decimal(&mut m, summary.succeeded as u64);
    push_str(&mut m, " failed=");
    push_decimal(&mut m, summary.failed as u64);
    push_str(&mut m, " skipped=");
    push_decimal(&mut m, summary.skipped as u64);
    push_str(&mut m, " planned=");
    push_decimal(&mut m, summary.planned as u64);
    push_str(&mut m, " not-run=");
    push_decimal(&mut m, summary.not_run as u64);
    push_str(&mut m, " interrupted-count=");
    push_decimal(&mut m, summary.interrupted_count as u64);
    push_str(&mut m, " interrupted=");
    push_str(&mut m, if summary.interrupted { "true" } else { "false" });
    string_of(&m)
}


/// Version of the record format that batch output writes.
pub const BATCH_OUTPUT_SCHEMA_VERSION: u8 = 1;

/// The final record of a JSONL batch: the schema version, the type
/// `batch.summary`, and the totals.
#[derive(Debug)]
pub struct SummaryRecord {
    pub schema_version: u8,
    pub record_type: &'static str,
    pub summary: BatchSummary,
}

/// The summary record that a JSONL batch writes at its end.
pub fn summary_record(summary: &BatchSummary) -> (r: SummaryRecord)
    ensures
        r.schema_version == 1,
        r.record_type@ == "batch.summary"@,
        r.summary == *summary,
{
    SummaryRecord {
        schema_version: BATCH_OUTPUT_SCHEMA_VERSION,
        record_type: "batch.summary",
        summary: BatchSummary {
            total: summary.total,
            succeeded: summary.succeeded,
            failed: summary.failed,
            skipped: summary.skipped,
            planned: summary.planned,
            not_run: summary.not_run,
            interrupted_count: summary.interrupted_count,
            interrupted: summary.interrupted,
        },
    }
}

/// `n` spaces.
pub open spec fn spaces(n: nat) -> Seq<char> {
    Seq::new(n, |i: int| ' ')
}

/// `s` right-aligned in a field of `width` characters.
pub open spec fn align_right(s: Seq<char>, width: nat) -> Seq<char> {
    if s.len() >= width { s } else { spaces((width - s.len()) as nat) + s }
}

/// `s` left-aligned in a field of `width` characters.
pub open spec fn align_left(s: Seq<char>, width: nat) -> Seq<char> {
    if s.len() >= width { s } else { s + spaces((width - s.len()) as nat) }
}

/// The task an outcome names in a table row: its reference with its
/// identifier, its identifier alone, or `-`.
pub open spec fn outcome_target(o: OperationOutcome) -> Seq<char> {
    match (o.task_reference, o.task_id) {
        (Some(reference), Some(task_id)) => reference@ + " ("@ + crate::codec::uuid_text(task_id) + ")"@,
        (_, Some(task_id)) => crate::codec::uuid_text(task_id),
        _ => "-"@,
    }
}

/// The table row of one outcome: its 1-based input position, operation
/// identifier and status in aligned columns, the task it names, and the
/// error code of a failure.
pub open spec fn spec_outcome_line(o: OperationOutcome) -> Seq<char> {
    align_right(decimal((o.index + 1) as nat), 5) + "  "@ + align_left(o.operation_id@, 24) + "  "@
        + align_left(spec_status_name(o.status), 11) + "  task="@ + outcome_target(o)
        + match o.error {
            Some(e) => " error="@ + e.code@,
            None => Seq::empty(),
        }
}

fn push_spaces(dst: &mut Vec<char>, n: usize)
    ensures
        final(dst)@ == old(dst)@ + spaces(n as nat),
{
    let mut i: usize = 0;
    while i < n
        invariant
            i <= n,
            dst@ == old(dst)@ + spaces(i as nat),
        decreases n - i,
    {
        dst.push(' ');
        i += 1;
        assert(dst@ =~= old(dst)@ + spaces(i as nat));
    }
}

fn push_aligned(dst: &mut Vec<char>, text: &Vec<char>, width: usize, right: bool)
    ensures
        final(dst)@ == old(dst)@ + (if right { align_right(text@, width as nat) } else { align_left(text@, width as nat) }),
{
    let pad = if text.len() >= width { 0 } else { width - text.len() };
    if right {
        push_spaces(dst, pad);
    }
    let mut copy = text.clone();
    dst.append(&mut copy);
    if !right {
        push_spaces(dst, pad);
    }
    assert(spaces(0) =~= Seq::<char>::empty());
    if right {
        assert(dst@ =~= old(dst)@ + align_right(text@, width as nat)) by {
            assert(dst@ =~= old(dst)@ + spaces(pad as nat) + text@);
        }
    } else {
        assert(dst@ =~= old(dst)@ + text@ + spaces(pad as nat));
    }
}

/// The row that a table-format batch writes for one finished operation.
pub fn emit_outcome(outcome: &OperationOutcome) -> (line: String)
    requires
        outcome.index < usize::MAX,
    ensures
        line@ == spec_outcome_line(*outcome),
{
    let mut position: Vec<char> = Vec::new();
    push_decimal(&mut position, (outcome.index + 1) as u64);
    let mut m: Vec<char> = Vec::new();
    push_aligned(&mut m, &position, 5, true);
    push_str(&mut m, "  ");
    push_aligned(&mut m, &chars_of(outcome.operation_id.as_str()), 24, false);
    push_str(&mut m, "  ");
    push_aligned(&mut m, &chars_of(outcome_status_name(outcome.status)), 11, false);
    push_str(&mut m, "  task=");
    match (&outcome.task_reference, outcome.task_id) {
        (Some(reference), Some(task_id)) => {
            push_str(&mut m, reference.as_str());
            push_str(&mut m, " (");
            push_str(&mut m, crate::codec::uuid_to_string(task_id).as_str());
            push_str(&mut m, ")");
        },
        (_, Some(task_id)) => push_str(&mut m, crate::codec::uuid_to_string(task_id).as_str()),
        _ => push_str(&mut m, "-"),
    }
    match &outcome.error {
        Some(error) => {
            push_str(&mut m, " error=");
            push_str(&mut m, error.code.as_str());
        },
        None => {
            assert(m@ =~= m@ + Seq::<char>::empty());
        },
    }
    string_of(&m)
}


/// Merging stopping exit codes: no code changes nothing, a checkpoint
/// failure (4) absorbs every other code, and the order in which three
/// outcomes are merged does not matter for grouping.
pub proof fn lemma_merge_fatal_laws(a: Option<i32>, b: Option<i32>, c: Option<i32>)
    ensures
        spec_merge_fatal(None, a) == a,
        spec_merge_fatal(a, None) == a,
        spec_merge_fatal(Some(4i32), a) == Some(4i32),
        spec_merge_fatal(a, Some(4i32)) == Some(4i32),
        spec_merge_fatal(spec_merge_fatal(a, b), c) == spec_merge_fatal(a, spec_merge_fatal(b, c)),
{
}

/// Each recorded outcome is counted exactly once, under its status.
pub proof fn lemma_counting_accounts_for_each_outcome(c: OutcomeCounters, status: OutcomeStatus)
    requires
        spec_processed(c) < usize::MAX,
    ensures
        spec_processed(counted(c, status)) == spec_processed(c) + 1,
        counted(c, status).interrupted == c.interrupted + (if status == OutcomeStatus::Interrupted { 1int } else { 0int }),
        counted(c, status).failed == c.failed + (if status == OutcomeStatus::Failed { 1int } else { 0int }),
{
}

} // verus!
