use crate::auth::{mfa_challenge_is_terminal, previous_session_revoke_warning, spec_revoke_warning, WarningResult};
use crate::error::PublicError;
use crate::text::{chars_of, decimal, owned, push_decimal, push_str, string_of, terminal_line, terminal_text, trim, trim_chars};
use vstd::prelude::*;

verus! {

/// The message for an MFA challenge that can no longer be answered.
pub const MFA_CHALLENGE_EXPIRED_MESSAGE: &'static str = "MFA challenge expired; restart sign-in";

/// An ASCII letter in lower case; other characters unchanged.
pub open spec fn ascii_lower(c: char) -> char {
    if 'A' <= c && c <= 'Z' {
        ((c as u32) + 32) as char
    } else {
        c
    }
}

/// Equal when ASCII letters are compared without regard to case.
pub open spec fn eq_ignore_ascii_case(a: Seq<char>, b: Seq<char>) -> bool {
    a.len() == b.len() && forall|i: int| 0 <= i < a.len() ==> ascii_lower(#[trigger] a[i]) == ascii_lower(b[i])
}

fn lower(c: char) -> (r: char)
    ensures
        r == ascii_lower(c),
{
    if 'A' <= c && c <= 'Z' {
        let b = (c as u32 + 32) as u8;
        b as char
    } else {
        c
    }
}

/// Whether two strings are equal when ASCII letters are compared without
/// regard to case.
pub fn equal_ignoring_ascii_case(a: &str, b: &str) -> (r: bool)
    ensures
        r == eq_ignore_ascii_case(a@, b@),
{
    let x = chars_of(a);
    let y = chars_of(b);
    if x.len() != y.len() {
        return false;
    }
    let mut i: usize = 0;
    while i < x.len()
        invariant
            i <= x@.len(),
            x@ == a@,
            y@ == b@,
            x@.len() == y@.len(),
            forall|j: int| 0 <= j < i ==> ascii_lower(#[trigger] x@[j]) == ascii_lower(y@[j]),
        decreases x@.len() - i,
    {
        if lower(x[i]) != lower(y[i]) {
            return false;
        }
        i += 1;
    }
    true
}

/// The credentials stored on this machine, as far as `auth login` looks at
/// them before signing in.
#[derive(Debug)]
pub struct StoredLogin {
    pub api_url: String,
    pub email: String,
    pub refresh_expired: bool,
}

/// How `auth login` was invoked: what is stored, the API URL in its
/// normalized form, the `--email` flag, and whether the password comes on
/// standard input and whether prompting is allowed.
#[derive(Debug)]
pub struct LoginStart {
    pub stored: Option<StoredLogin>,
    pub normalized_api_url: String,
    pub email_flag: Option<String>,
    pub password_stdin: bool,
    pub non_interactive: bool,
}

/// Where a sign-in stands.
#[derive(PartialEq, Eq, Structural, Clone, Copy, Debug)]
pub enum LoginStage {
    /// Prompting for the email.
    AwaitingEmail,
    /// Reading the password (and, from standard input, an MFA code).
    ReadingPassword,
    /// Sending the email and password.
    Authenticating,
    /// Reading how long the MFA challenge has left.
    CheckingChallenge,
    /// Prompting for an MFA code.
    AwaitingCode,
    /// Sending an MFA code.
    Verifying,
    /// Showing why a code was refused; then waiting `wait` seconds, if any.
    ShowingRetry { wait: Option<u64> },
    /// Waiting until a code may be retried.
    Waiting { seconds: u64 },
    /// Showing that authenticator codes are locked.
    ShowingLock,
    /// Saving the new credentials.
    Persisting,
    /// Revoking the session the new one replaced.
    Revoking,
    /// Signing in is over.
    Done,
}

/// The state of a sign-in: its stage, the email, how it was invoked, the
/// MFA code supplied on standard input and not yet used, the attempts left
/// and whether only backup codes are accepted, and the last message the
/// server gave for a refused code.
#[derive(Debug)]
pub struct LoginState {
    pub stage: LoginStage,
    pub email: String,
    pub password_stdin: bool,
    pub non_interactive: bool,
    pub supplied_code: Option<String>,
    pub attempts_remaining: u8,
    pub backup_only: bool,
    pub last_message: String,
}

/// How the first sign-in request ended.
#[derive(Debug)]
pub enum BeginOutcome {
    Authenticated,
    MfaRequired { attempts_remaining: u8 },
}

/// How the server answered an MFA code.
#[derive(Debug)]
pub enum MfaAnswer {
    Accepted,
    /// The code was refused but another may be tried; the attempts and the
    /// wait the server gave, if any, and the attempts of the new challenge.
    Retryable { message: String, challenge_attempts: u8, attempts_remaining: Option<u8>, retry_after_seconds: Option<u64> },
    /// Authenticator codes are locked; backup codes may still be allowed.
    TotpLocked { message: String, backup_code_available: bool, challenge_attempts: u8 },
    /// Signing in cannot continue.
    Terminal(String),
}

/// The session that new credentials replaced.
#[derive(Debug)]
pub struct PreviousSession {
    pub refresh_expired: bool,
    pub same_refresh_token: bool,
}

/// What happened since the last step.
#[derive(Debug)]
pub enum LoginEvent {
    Email(Result<String, PublicError>),
    /// The password was read; from standard input it may come with an MFA
    /// code.
    Password(Result<Option<String>, PublicError>),
    Began(Result<BeginOutcome, PublicError>),
    /// The MFA challenge has this many seconds left.
    Challenge(u64),
    Code(Result<String, PublicError>),
    Verified(MfaAnswer),
    Shown(Result<(), PublicError>),
    /// The wait ended: whether the retry time came before the challenge
    /// ran out, and whether the challenge has run out.
    Waited(Result<(bool, bool), PublicError>),
    /// The credentials were saved for this email, replacing this session.
    Persisted(Result<(String, Option<PreviousSession>), PublicError>),
    Revoked(Result<Option<String>, PublicError>),
}

/// What signing in does next.
#[derive(Debug)]
pub enum LoginAction {
    PromptEmail,
    ReadPassword { from_stdin: bool },
    BeginLogin,
    CheckChallenge,
    PromptCode { backup_only: bool, attempts_remaining: u8 },
    CompleteMfa(String),
    /// Show this line to the operator.
    ShowMessage(String),
    WaitForRetry { seconds: u64 },
    Persist,
    RevokePrevious,
    /// Report the sign-in for this email, with these warnings.
    PrintLogin { already_logged_in: bool, email: String, warnings: Vec<WarningResult> },
    /// An MFA code is needed but none can be asked for.
    RequireMfaInput,
    Fail(PublicError),
    Wait,
}

/// The sign-in ends with a validation error with this message.
pub open spec fn fails_with(a: LoginAction, message: Seq<char>) -> bool {
    a matches LoginAction::Fail(e) && e.code@ == "validation"@ && e.message@ == message
}

/// Stored credentials are reused when they are for the same API URL, have
/// not expired, and belong to the email asked for, if any (compared
/// without regard to ASCII case, the flag trimmed).
pub open spec fn reuses(c: LoginStart) -> bool {
    c.stored matches Some(st) && st.api_url@ == c.normalized_api_url@ && !st.refresh_expired && match c.email_flag {
        None => true,
        Some(f) => eq_ignore_ascii_case(st.email@, trim(f@)),
    }
}

/// Once the email is known: it must not be empty, and without prompts the
/// password must come on standard input; then the password is read.
pub open spec fn after_email(email: Seq<char>, password_stdin: bool, non_interactive: bool, s: LoginState, a: LoginAction) -> bool {
    &&& s.email@ == email
    &&& s.password_stdin == password_stdin
    &&& s.non_interactive == non_interactive
    &&& s.supplied_code is None
    &&& !s.backup_only
    &&& if email.len() == 0 {
        s.stage == LoginStage::Done && fails_with(a, "email is required"@)
    } else if non_interactive && !password_stdin {
        s.stage == LoginStage::Done && fails_with(a, "--non-interactive auth login requires --password-stdin"@)
    } else {
        s.stage == LoginStage::ReadingPassword && a == LoginAction::ReadPassword { from_stdin: password_stdin }
    }
}

/// The first state and action of `auth login`.
pub open spec fn login_start_ok(c: LoginStart, s: LoginState, a: LoginAction) -> bool {
    if reuses(c) {
        s.stage == LoginStage::Done && (a matches LoginAction::PrintLogin { already_logged_in, email, warnings }
            && already_logged_in && email@ == c.stored->0.email@ && warnings@.len() == 0)
    } else if c.non_interactive && c.email_flag is None {
        s.stage == LoginStage::Done && fails_with(a, "--non-interactive auth login requires --email"@)
    } else {
        match c.email_flag {
            Some(f) => after_email(trim(f@), c.password_stdin, c.non_interactive, s, a),
            None => s.stage == LoginStage::AwaitingEmail && a is PromptEmail && s.password_stdin == c.password_stdin
                && s.non_interactive == c.non_interactive && s.supplied_code is None && !s.backup_only,
        }
    }
}

fn email_known(email: String, password_stdin: bool, non_interactive: bool) -> (r: (LoginState, LoginAction))
    ensures
        after_email(email@, password_stdin, non_interactive, r.0, r.1),
{
    let stage;
    let action;
    if chars_of(email.as_str()).len() == 0 {
        stage = LoginStage::Done;
        action = LoginAction::Fail(PublicError::validation(owned("email is required")));
    } else if non_interactive && !password_stdin {
        stage = LoginStage::Done;
        action = LoginAction::Fail(PublicError::validation(owned("--non-interactive auth login requires --password-stdin")));
    } else {
        stage = LoginStage::ReadingPassword;
        action = LoginAction::ReadPassword { from_stdin: password_stdin };
    }
    (LoginState {
        stage,
        email,
        password_stdin,
        non_interactive,
        supplied_code: None,
        attempts_remaining: 0,
        backup_only: false,
        last_message: owned(""),
    }, action)
}

/// Starts `auth login`: reuses stored credentials that still serve, and
/// otherwise settles the email before anything is sent.
pub fn login_start(c: LoginStart) -> (r: (LoginState, LoginAction))
    ensures
        login_start_ok(c, r.0, r.1),
{
    let reuse = match &c.stored {
        Some(st) => crate::text::str_eq(st.api_url.as_str(), c.normalized_api_url.as_str()) && !st.refresh_expired && match &c.email_flag {
            None => true,
            Some(f) => equal_ignoring_ascii_case(st.email.as_str(), string_of(&trim_chars(&chars_of(f.as_str()))).as_str()),
        },
        None => false,
    };
    if reuse {
        let email = match &c.stored {
            Some(st) => owned(st.email.as_str()),
            None => owned(""),
        };
        let s = LoginState {
            stage: LoginStage::Done,
            email: owned(""),
            password_stdin: c.password_stdin,
            non_interactive: c.non_interactive,
            supplied_code: None,
            attempts_remaining: 0,
            backup_only: false,
            last_message: owned(""),
        };
        return (s, LoginAction::PrintLogin { already_logged_in: true, email, warnings: Vec::new() });
    }
    match c.email_flag {
        None => {
            let stage = if c.non_interactive { LoginStage::Done } else { LoginStage::AwaitingEmail };
            let action = if c.non_interactive {
                LoginAction::Fail(PublicError::validation(owned("--non-interactive auth login requires --email")))
            } else {
                LoginAction::PromptEmail
            };
            (LoginState {
                stage,
                email: owned(""),
                password_stdin: c.password_stdin,
                non_interactive: c.non_interactive,
                supplied_code: None,
                attempts_remaining: 0,
                backup_only: false,
                last_message: owned(""),
            }, action)
        },
        Some(f) => email_known(string_of(&trim_chars(&chars_of(f.as_str()))), c.password_stdin, c.non_interactive),
    }
}

/// The state at `stage` with the other fields kept.
pub open spec fn at(s: LoginState, stage: LoginStage) -> LoginState {
    LoginState { stage, ..s }
}

/// Reading the MFA challenge's time left: a challenge that has run out or
/// has no attempts left ends the sign-in; a code from standard input is
/// used once; without prompts a missing code ends the sign-in; otherwise
/// the operator is asked.
pub open spec fn challenge_step(s: LoginState, remaining: u64, next: LoginState, a: LoginAction) -> bool {
    if remaining == 0 || s.attempts_remaining == 0 {
        next == at(s, LoginStage::Done) && fails_with(a, MFA_CHALLENGE_EXPIRED_MESSAGE@)
    } else {
        match s.supplied_code {
            Some(code) => next == (LoginState { stage: LoginStage::Verifying, supplied_code: None, ..s })
                && (a matches LoginAction::CompleteMfa(c) && c@ == code@),
            None => if s.password_stdin || s.non_interactive {
                next == at(s, LoginStage::Done) && a is RequireMfaInput
            } else {
                next == at(s, LoginStage::AwaitingCode)
                    && a == LoginAction::PromptCode { backup_only: s.backup_only, attempts_remaining: s.attempts_remaining }
            },
        }
    }
}

/// The message for a retry that could not wait for its time.
pub open spec fn retry_wait_failure(s: LoginState, seconds: u64, expired: bool) -> Seq<char> {
    if expired {
        MFA_CHALLENGE_EXPIRED_MESSAGE@
    } else {
        s.last_message@ + " Retry the login after "@ + decimal(seconds as nat) + " seconds."@
    }
}

/// One step of signing in: errors end it; MFA codes are asked for and
/// retried as the server allows, a locked authenticator falls back to
/// backup codes, and a replaced session is revoked before the sign-in is
/// reported.
pub open spec fn login_step_ok(s: LoginState, ev: LoginEvent, next: LoginState, a: LoginAction) -> bool {
    match (s.stage, ev) {
        (LoginStage::Done, _) => next == s && a is Wait,
        (LoginStage::AwaitingEmail, LoginEvent::Email(Ok(e))) => after_email(e@, s.password_stdin, s.non_interactive, next, a),
        (LoginStage::ReadingPassword, LoginEvent::Password(Ok(code))) =>
            next == (LoginState { stage: LoginStage::Authenticating, supplied_code: code, ..s }) && a is BeginLogin,
        (LoginStage::Authenticating, LoginEvent::Began(Ok(BeginOutcome::Authenticated))) =>
            next == at(s, LoginStage::Persisting) && a is Persist,
        (LoginStage::Authenticating, LoginEvent::Began(Ok(BeginOutcome::MfaRequired { attempts_remaining }))) =>
            next == (LoginState { stage: LoginStage::CheckingChallenge, attempts_remaining, ..s }) && a is CheckChallenge,
        (LoginStage::CheckingChallenge, LoginEvent::Challenge(remaining)) => challenge_step(s, remaining, next, a),
        (LoginStage::AwaitingCode, LoginEvent::Code(Ok(code))) =>
            next == at(s, LoginStage::Verifying) && (a matches LoginAction::CompleteMfa(c) && c@ == code@),
        (LoginStage::Verifying, LoginEvent::Verified(answer)) => match answer {
            MfaAnswer::Accepted => next == at(s, LoginStage::Persisting) && a is Persist,
            MfaAnswer::Retryable { message, challenge_attempts, attempts_remaining, retry_after_seconds } => if s.password_stdin {
                next == at(s, LoginStage::Done) && fails_with(a, message@)
            } else {
                &&& next.stage == LoginStage::ShowingRetry {
                    wait: match retry_after_seconds {
                        Some(w) => if w > 0 { Some(w) } else { None },
                        None => None,
                    },
                }
                &&& next.attempts_remaining == match attempts_remaining {
                    Some(n) => n,
                    None => challenge_attempts,
                }
                &&& next.last_message@ == message@
                &&& next.email == s.email && next.password_stdin == s.password_stdin && next.non_interactive == s.non_interactive
                &&& next.supplied_code == s.supplied_code && next.backup_only == s.backup_only
                &&& (a matches LoginAction::ShowMessage(m) && m@ == terminal_text(message@))
            },
            MfaAnswer::TotpLocked { message, backup_code_available, challenge_attempts } =>
                if s.password_stdin || !backup_code_available {
                    next == at(s, LoginStage::Done) && fails_with(a, message@)
                } else {
                    next == (LoginState { stage: LoginStage::ShowingLock, attempts_remaining: challenge_attempts, backup_only: true, ..s })
                        && (a matches LoginAction::ShowMessage(m) && m@ == terminal_text(message@))
                },
            MfaAnswer::Terminal(message) => next == at(s, LoginStage::Done) && fails_with(a, message@),
        },
        (LoginStage::ShowingRetry { wait }, LoginEvent::Shown(Ok(()))) => match wait {
            Some(w) => next == at(s, LoginStage::Waiting { seconds: w }) && a == LoginAction::WaitForRetry { seconds: w },
            None => next == at(s, LoginStage::CheckingChallenge) && a is CheckChallenge,
        },
        (LoginStage::ShowingLock, LoginEvent::Shown(Ok(()))) => next == at(s, LoginStage::CheckingChallenge) && a is CheckChallenge,
        (LoginStage::Waiting { seconds }, LoginEvent::Waited(Ok((completed, expired)))) => if completed {
            next == at(s, LoginStage::CheckingChallenge) && a is CheckChallenge
        } else {
            next == at(s, LoginStage::Done) && fails_with(a, retry_wait_failure(s, seconds, expired))
        },
        (LoginStage::Persisting, LoginEvent::Persisted(Ok((email, previous)))) =>
            if previous matches Some(p) && !p.refresh_expired && !p.same_refresh_token {
                next.stage == LoginStage::Revoking && next.email@ == email@ && a is RevokePrevious
            } else {
                next.stage == LoginStage::Done && (a matches LoginAction::PrintLogin { already_logged_in, email: e, warnings }
                    && !already_logged_in && e@ == email@ && warnings@.len() == 0)
            },
        (LoginStage::Revoking, LoginEvent::Revoked(result)) => next.stage == LoginStage::Done
            && (a matches LoginAction::PrintLogin { already_logged_in, email: e, warnings } && !already_logged_in && e@ == s.email@
            && match spec_revoke_warning("login_previous_session_revoke_failed"@,
                "failed to revoke the previous account token on server: "@, result) {
                Some((code, message)) => warnings@.len() == 1 && warnings@[0].code@ == code && warnings@[0].message@ == message,
                None => warnings@.len() == 0,
            }),
        (_, LoginEvent::Email(Err(e))) => next == at(s, LoginStage::Done) && a == LoginAction::Fail(e),
        (_, LoginEvent::Password(Err(e))) => next == at(s, LoginStage::Done) && a == LoginAction::Fail(e),
        (_, LoginEvent::Began(Err(e))) => next == at(s, LoginStage::Done) && a == LoginAction::Fail(e),
        (_, LoginEvent::Code(Err(e))) => next == at(s, LoginStage::Done) && a == LoginAction::Fail(e),
        (_, LoginEvent::Shown(Err(e))) => next == at(s, LoginStage::Done) && a == LoginAction::Fail(e),
        (_, LoginEvent::Waited(Err(e))) => next == at(s, LoginStage::Done) && a == LoginAction::Fail(e),
        (_, LoginEvent::Persisted(Err(e))) => next == at(s, LoginStage::Done) && a == LoginAction::Fail(e),
        _ => next == s && a is Wait,
    }
}

fn moved(s: LoginState, stage: LoginStage) -> (r: LoginState)
    ensures
        r == at(s, stage),
{
    LoginState { stage, ..s }
}

fn fail(s: LoginState, message: String) -> (r: (LoginState, LoginAction))
    ensures
        r.0 == at(s, LoginStage::Done),
        fails_with(r.1, message@),
{
    (moved(s, LoginStage::Done), LoginAction::Fail(PublicError::validation(message)))
}

/// Decides the next step of signing in from what just happened.
pub fn login_step(s: LoginState, ev: LoginEvent) -> (r: (LoginState, LoginAction))
    ensures
        login_step_ok(s, ev, r.0, r.1),
{
    if s.stage == LoginStage::Done {
        return (s, LoginAction::Wait);
    }
    let stage = s.stage;
    match ev {
        LoginEvent::Email(Ok(e)) => if stage == LoginStage::AwaitingEmail {
            email_known(e, s.password_stdin, s.non_interactive)
        } else {
            (s, LoginAction::Wait)
        },
        LoginEvent::Password(Ok(code)) => if stage == LoginStage::ReadingPassword {
            (LoginState { stage: LoginStage::Authenticating, supplied_code: code, ..s }, LoginAction::BeginLogin)
        } else {
            (s, LoginAction::Wait)
        },
        LoginEvent::Began(Ok(outcome)) => if stage == LoginStage::Authenticating {
            match outcome {
                BeginOutcome::Authenticated => (moved(s, LoginStage::Persisting), LoginAction::Persist),
                BeginOutcome::MfaRequired { attempts_remaining } =>
                    (LoginState { stage: LoginStage::CheckingChallenge, attempts_remaining, ..s }, LoginAction::CheckChallenge),
            }
        } else {
            (s, LoginAction::Wait)
        },
        LoginEvent::Challenge(remaining) => if stage == LoginStage::CheckingChallenge {
            if mfa_challenge_is_terminal(remaining, s.attempts_remaining) {
                return fail(s, owned(MFA_CHALLENGE_EXPIRED_MESSAGE));
            }
            let LoginState { stage: _, email, password_stdin, non_interactive, supplied_code, attempts_remaining, backup_only, last_message } = s;
            match supplied_code {
                Some(code) => (LoginState {
                    stage: LoginStage::Verifying,
                    email,
                    password_stdin,
                    non_interactive,
                    supplied_code: None,
                    attempts_remaining,
                    backup_only,
                    last_message,
                }, LoginAction::CompleteMfa(code)),
                None => {
                    let s2 = LoginState {
                        stage: LoginStage::Done,
                        email,
                        password_stdin,
                        non_interactive,
                        supplied_code: None,
                        attempts_remaining,
                        backup_only,
                        last_message,
                    };
                    if password_stdin || non_interactive {
                        (s2, LoginAction::RequireMfaInput)
                    } else {
                        (moved(s2, LoginStage::AwaitingCode), LoginAction::PromptCode { backup_only, attempts_remaining })
                    }
                },
            }
        } else {
            (s, LoginAction::Wait)
        },
        LoginEvent::Code(Ok(code)) => if stage == LoginStage::AwaitingCode {
            (moved(s, LoginStage::Verifying), LoginAction::CompleteMfa(code))
        } else {
            (s, LoginAction::Wait)
        },
        LoginEvent::Verified(answer) => if stage == LoginStage::Verifying {
            match answer {
                MfaAnswer::Accepted => (moved(s, LoginStage::Persisting), LoginAction::Persist),
                MfaAnswer::Retryable { message, challenge_attempts, attempts_remaining, retry_after_seconds } => {
                    if s.password_stdin {
                        return fail(s, message);
                    }
                    let wait = match retry_after_seconds {
                        Some(w) => if w > 0 { Some(w) } else { None },
                        None => None,
                    };
                    let attempts = match attempts_remaining {
                        Some(n) => n,
                        None => challenge_attempts,
                    };
                    let shown = terminal_line(message.as_str());
                    (LoginState { stage: LoginStage::ShowingRetry { wait }, attempts_remaining: attempts, last_message: message, ..s },
                        LoginAction::ShowMessage(shown))
                },
                MfaAnswer::TotpLocked { message, backup_code_available, challenge_attempts } => {
                    if s.password_stdin || !backup_code_available {
                        return fail(s, message);
                    }
                    let shown = terminal_line(message.as_str());
                    (LoginState { stage: LoginStage::ShowingLock, attempts_remaining: challenge_attempts, backup_only: true, ..s },
                        LoginAction::ShowMessage(shown))
                },
                MfaAnswer::Terminal(message) => fail(s, message),
            }
        } else {
            (s, LoginAction::Wait)
        },
        LoginEvent::Shown(Ok(())) => match stage {
            LoginStage::ShowingRetry { wait } => match wait {
                Some(w) => (moved(s, LoginStage::Waiting { seconds: w }), LoginAction::WaitForRetry { seconds: w }),
                None => (moved(s, LoginStage::CheckingChallenge), LoginAction::CheckChallenge),
            },
            LoginStage::ShowingLock => (moved(s, LoginStage::CheckingChallenge), LoginAction::CheckChallenge),
            _ => (s, LoginAction::Wait),
        },
        LoginEvent::Waited(Ok((completed, expired))) => match stage {
            LoginStage::Waiting { seconds } => if completed {
                (moved(s, LoginStage::CheckingChallenge), LoginAction::CheckChallenge)
            } else if expired {
                fail(s, owned(MFA_CHALLENGE_EXPIRED_MESSAGE))
            } else {
                let mut m = chars_of(s.last_message.as_str());
                push_str(&mut m, " Retry the login after ");
                push_decimal(&mut m, seconds);
                push_str(&mut m, " seconds.");
                fail(s, string_of(&m))
            },
            _ => (s, LoginAction::Wait),
        },
        LoginEvent::Persisted(Ok((email, previous))) => if stage == LoginStage::Persisting {
            let revoke = match &previous {
                Some(p) => !p.refresh_expired && !p.same_refresh_token,
                None => false,
            };
            if revoke {
                (LoginState { stage: LoginStage::Revoking, email, ..s }, LoginAction::RevokePrevious)
            } else {
                (moved(s, LoginStage::Done), LoginAction::PrintLogin { already_logged_in: false, email, warnings: Vec::new() })
            }
        } else {
            (s, LoginAction::Wait)
        },
        LoginEvent::Revoked(result) => if stage == LoginStage::Revoking {
            let mut warnings: Vec<WarningResult> = Vec::new();
            if let Some(w) = previous_session_revoke_warning(result) {
                warnings.push(w);
            }
            let email = owned(s.email.as_str());
            (moved(s, LoginStage::Done), LoginAction::PrintLogin { already_logged_in: false, email, warnings })
        } else {
            (s, LoginAction::Wait)
        },
        LoginEvent::Email(Err(e)) | LoginEvent::Password(Err(e)) | LoginEvent::Began(Err(e)) | LoginEvent::Code(Err(e))
        | LoginEvent::Shown(Err(e)) | LoginEvent::Waited(Err(e)) | LoginEvent::Persisted(Err(e)) =>
            (moved(s, LoginStage::Done), LoginAction::Fail(e)),
    }
}

/// Local state tied to the previous credentials stays when the new ones
/// are for the same API URL (the previous one normalized), the same user
/// and the same data key (ignoring surrounding white space).
pub fn local_auth_state_unchanged(
    previous_api_url_normalized: &str,
    current_api_url: &str,
    previous_user_id: u128,
    current_user_id: u128,
    previous_data_key: &str,
    current_data_key: &str,
) -> (r: bool)
    ensures
        r == (previous_api_url_normalized@ == current_api_url@ && previous_user_id == current_user_id
            && trim(previous_data_key@) == trim(current_data_key@)),
{
    crate::text::str_eq(previous_api_url_normalized, current_api_url) && previous_user_id == current_user_id
        && crate::text::chars_eq(&trim_chars(&chars_of(previous_data_key)), &trim_chars(&chars_of(current_data_key)))
}

} // verus!
