use crate::text::{chars_of, string_of};
use vstd::prelude::*;

verus! {

/// A user-facing error: a stable machine-readable code, a human message,
/// and the transport facts that retry policies inspect.
#[derive(Debug)]
pub struct PublicError {
    pub code: String,
    pub message: String,
    pub http_status: Option<u16>,
    pub retry_after_ms: Option<u64>,
    pub transport_failure: bool,
    pub response_failure: bool,
}

/// An error that ends a CLI command, with the process exit code it maps to.
#[derive(Debug)]
pub struct CliError {
    pub code: String,
    pub message: String,
    pub exit_code: i32,
}

/// Exit code of a checkpoint safety or durability failure.
pub const CHECKPOINT_EXIT_CODE: i32 = 4;

/// Exit code of an interrupted command.
pub const INTERRUPTED_EXIT_CODE: i32 = 130;

/// Exit code of any other failure.
pub const FAILURE_EXIT_CODE: i32 = 1;

impl PublicError {
    /// The error's category.
    pub fn code(&self) -> (c: &str)
        ensures
            c@ == self.code@,
    {
        self.code.as_str()
    }

    /// The error's message, as it is shown.
    pub fn to_string(&self) -> (s: String)
        ensures
            s@ == self.message@,
    {
        crate::text::owned(self.message.as_str())
    }

    /// An error of category `code` with `message` and no transport facts.
    pub fn with_code(code: &str, message: String) -> (e: Self)
        ensures
            e.code@ == code@,
            e.message@ == message@,
            e.http_status is None,
            e.retry_after_ms is None,
            !e.transport_failure,
            !e.response_failure,
    {
        PublicError {
            code: string_of(&chars_of(code)),
            message,
            http_status: None,
            retry_after_ms: None,
            transport_failure: false,
            response_failure: false,
        }
    }

    /// Invalid input or state.
    pub fn validation(message: String) -> (e: Self)
        ensures
            e.code@ == "validation"@,
            e.message@ == message@,
            e.http_status is None,
            e.retry_after_ms is None,
            !e.transport_failure,
            !e.response_failure,
    {
        Self::with_code("validation", message)
    }

    /// A failure the client did not expect.
    pub fn unexpected(message: String) -> (e: Self)
        ensures
            e.code@ == "unexpected"@,
            e.message@ == message@,
            e.http_status is None,
            e.retry_after_ms is None,
            !e.transport_failure,
            !e.response_failure,
    {
        Self::with_code("unexpected", message)
    }

    /// A cryptographic or authenticity check failed.
    pub fn crypto(message: String) -> (e: Self)
        ensures
            e.code@ == "crypto"@,
            e.message@ == message@,
            e.http_status is None,
            e.retry_after_ms is None,
            !e.transport_failure,
            !e.response_failure,
    {
        Self::with_code("crypto", message)
    }

    /// A local deadline elapsed.
    pub fn request_timeout(message: String) -> (e: Self)
        ensures
            e.code@ == "request_timeout"@,
            e.message@ == message@,
            e.http_status is None,
            e.retry_after_ms is None,
            !e.transport_failure,
            !e.response_failure,
    {
        Self::with_code("request_timeout", message)
    }

    /// A deferral that must not be retried before `retry_after_ms`.
    pub fn rate_limited_with_retry_after(message: String, retry_after_ms: u64) -> (e: Self)
        ensures
            e.code@ == "rate_limited"@,
            e.message@ == message@,
            e.http_status is None,
            e.retry_after_ms == Some(retry_after_ms),
            !e.transport_failure,
            !e.response_failure,
    {
        let mut e = Self::with_code("rate_limited", message);
        e.retry_after_ms = Some(retry_after_ms);
        e
    }

    /// A server response that violates the expected schema.
    pub fn response_json_schema(message: String) -> (e: Self)
        ensures
            e.code@ == "response_json_schema"@,
            e.message@ == message@,
            e.http_status is None,
            e.retry_after_ms is None,
            !e.transport_failure,
            e.response_failure,
    {
        let mut e = Self::with_code("response_json_schema", message);
        e.response_failure = true;
        e
    }
}

impl CliError {
    /// The error's category.
    pub fn code(&self) -> (c: &str)
        ensures
            c@ == self.code@,
    {
        self.code.as_str()
    }

    /// The exit code the command ends with.
    pub fn exit_code(&self) -> (c: i32)
        ensures
            c == self.exit_code,
    {
        self.exit_code
    }

    /// The error's message, as it is shown.
    pub fn to_string(&self) -> (s: String)
        ensures
            s@ == self.message@,
    {
        crate::text::owned(self.message.as_str())
    }

    /// A CLI error with the given parts.
    pub fn new(code: &str, message: String, exit_code: i32) -> (e: Self)
        ensures
            e.code@ == code@,
            e.message@ == message@,
            e.exit_code == exit_code,
    {
        CliError { code: string_of(&chars_of(code)), message, exit_code }
    }

    /// Checkpoint state that cannot be safely used or continued.
    pub fn checkpoint_conflict(message: String) -> (e: Self)
        ensures
            e.code@ == "checkpoint_conflict"@,
            e.message@ == message@,
            e.exit_code == CHECKPOINT_EXIT_CODE,
    {
        Self::new("checkpoint_conflict", message, CHECKPOINT_EXIT_CODE)
    }

    /// A checkpoint durability operation that failed.
    pub fn checkpoint_io(message: String) -> (e: Self)
        ensures
            e.code@ == "checkpoint_io"@,
            e.message@ == message@,
            e.exit_code == CHECKPOINT_EXIT_CODE,
    {
        Self::new("checkpoint_io", message, CHECKPOINT_EXIT_CODE)
    }

    /// An interruption after which every in-flight operation reached a
    /// durable boundary.
    pub fn interrupted(message: String) -> (e: Self)
        ensures
            e.code@ == "interrupted"@,
            e.message@ == message@,
            e.exit_code == INTERRUPTED_EXIT_CODE,
    {
        Self::new("interrupted", message, INTERRUPTED_EXIT_CODE)
    }

    /// An interruption after which some sent mutation may have committed.
    pub fn interrupted_ambiguous(message: String) -> (e: Self)
        ensures
            e.code@ == "outcome_ambiguous"@,
            e.message@ == message@,
            e.exit_code == INTERRUPTED_EXIT_CODE,
    {
        Self::new("outcome_ambiguous", message, INTERRUPTED_EXIT_CODE)
    }

    /// An interruption while credentials may have been rotated.
    pub fn interrupted_session_ambiguous(message: String) -> (e: Self)
        ensures
            e.code@ == "session_outcome_ambiguous"@,
            e.message@ == message@,
            e.exit_code == INTERRUPTED_EXIT_CODE,
    {
        Self::new("session_outcome_ambiguous", message, INTERRUPTED_EXIT_CODE)
    }

    /// A batch in which some operations failed and others completed.
    pub fn batch_partial_failure(message: String) -> (e: Self)
        ensures
            e.code@ == "batch_partial_failure"@,
            e.message@ == message@,
            e.exit_code == FAILURE_EXIT_CODE,
    {
        Self::new("batch_partial_failure", message, FAILURE_EXIT_CODE)
    }

    /// A public error surfaced as a command failure.
    pub fn from_public(error: PublicError) -> (e: Self)
        ensures
            e.code@ == error.code@,
            e.message@ == error.message@,
            e.exit_code == FAILURE_EXIT_CODE,
    {
        CliError { code: error.code, message: error.message, exit_code: FAILURE_EXIT_CODE }
    }
}

} // verus!
