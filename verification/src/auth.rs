use crate::error::{CliError, PublicError};
use crate::text::{chars_of, owned, push_decimal, push_str, string_of, terminal_line, terminal_text, trim, trim_chars, decimal};
use vstd::prelude::*;

verus! {

/// Message shown when an MFA challenge can no longer be answered.
pub const MFA_CHALLENGE_EXPIRED_MESSAGE: &'static str = "MFA challenge expired; restart sign-in";

/// Longest server-requested wait before retrying an MFA code, in seconds.
pub const MAX_MFA_RETRY_WAIT_SECS: u64 = 60;

/// An MFA challenge can no longer be answered once it has expired or its
/// attempt budget is exhausted.
pub fn mfa_challenge_is_terminal(expires_in: u64, attempts_remaining: u8) -> (terminal: bool)
    ensures
        terminal == (expires_in == 0 || attempts_remaining == 0),
{
    expires_in == 0 || attempts_remaining == 0
}

/// When a rate-limited MFA attempt may be retried: `wait_seconds` after
/// `now_ms`, provided the wait is at most a minute and the retry time is
/// strictly before the challenge deadline.
pub open spec fn spec_mfa_retry_at(now_ms: u64, wait_seconds: u64, deadline_ms: u64) -> Option<u64> {
    if wait_seconds > MAX_MFA_RETRY_WAIT_SECS {
        None
    } else if now_ms + wait_seconds * 1000 < deadline_ms {
        Some((now_ms + wait_seconds * 1000) as u64)
    } else {
        None
    }
}

/// The instant at which a rate-limited MFA attempt may be retried, if that
/// is before the challenge deadline. Times are monotonic milliseconds.
pub fn mfa_retry_at(now_ms: u64, wait_seconds: u64, deadline_ms: u64) -> (r: Option<u64>)
    ensures
        r == spec_mfa_retry_at(now_ms, wait_seconds, deadline_ms),
{
    if wait_seconds > MAX_MFA_RETRY_WAIT_SECS {
        return None;
    }
    match now_ms.checked_add(wait_seconds * 1000) {
        Some(retry_at) => if retry_at < deadline_ms {
            Some(retry_at)
        } else {
            None
        },
        None => None,
    }
}

/// A rate-limited MFA attempt is retried whenever the server's wait is at
/// most a minute and ends before the challenge does: the retry then comes
/// exactly that many seconds from now. A longer wait, or one that reaches
/// the deadline, gives up.
pub proof fn lemma_mfa_retry_waits_up_to_a_minute(now_ms: u64, wait_seconds: u64, deadline_ms: u64)
    ensures
        wait_seconds <= 60 && now_ms + wait_seconds * 1000 < deadline_ms
            ==> spec_mfa_retry_at(now_ms, wait_seconds, deadline_ms) == Some((now_ms + wait_seconds * 1000) as u64),
        wait_seconds > 60 ==> spec_mfa_retry_at(now_ms, wait_seconds, deadline_ms) is None,
        now_ms + wait_seconds * 1000 >= deadline_ms ==> spec_mfa_retry_at(now_ms, wait_seconds, deadline_ms) is None,
        spec_mfa_retry_at(now_ms, wait_seconds, deadline_ms) matches Some(t) ==> t == now_ms + wait_seconds * 1000 && t < deadline_ms,
{
}

/// A line without one trailing carriage return.
pub open spec fn strip_cr(line: Seq<char>) -> Seq<char> {
    if line.len() > 0 && line.last() == '\r' {
        line.drop_last()
    } else {
        line
    }
}

/// Completed lines and the unterminated remainder after reading `s`.
pub open spec fn lines_state(s: Seq<char>) -> (Seq<Seq<char>>, Seq<char>)
    decreases s.len(),
{
    if s.len() == 0 {
        (Seq::empty(), Seq::empty())
    } else {
        let (done, current) = lines_state(s.drop_last());
        if s.last() == '\n' {
            (done.push(strip_cr(current)), Seq::empty())
        } else {
            (done, current.push(s.last()))
        }
    }
}

/// The lines of `s` as `str::lines` yields them: split after each `\n`,
/// a `\r` before the `\n` removed, and a final line only when non-empty.
pub open spec fn lines(s: Seq<char>) -> Seq<Seq<char>> {
    let (done, current) = lines_state(s);
    if current.len() == 0 {
        done
    } else {
        done.push(current)
    }
}

/// Splits text into lines as `str::lines` does.
pub fn split_lines(s: &str) -> (r: Vec<Vec<char>>)
    ensures
        r@.len() == lines(s@).len(),
        forall|i: int| 0 <= i < r@.len() ==> #[trigger] r@[i]@ == lines(s@)[i],
{
    let chars = chars_of(s);
    let mut done: Vec<Vec<char>> = Vec::new();
    let mut current: Vec<char> = Vec::new();
    let mut i: usize = 0;
    while i < chars.len()
        invariant
            i <= chars.len(),
            chars@ == s@,
            done@.len() == lines_state(chars@.subrange(0, i as int)).0.len(),
            forall|j: int| 0 <= j < done@.len() ==> #[trigger] done@[j]@ == lines_state(chars@.subrange(0, i as int)).0[j],
            current@ == lines_state(chars@.subrange(0, i as int)).1,
        decreases chars.len() - i,
    {
        let ghost prefix = chars@.subrange(0, i as int);
        let ghost next = chars@.subrange(0, i + 1);
        assert(next.drop_last() =~= prefix);
        let c = chars[i];
        if c == '\n' {
            if current.len() > 0 && current[current.len() - 1] == '\r' {
                current.pop();
            }
            let line = current;
            done.push(line);
            current = Vec::new();
            assert(current@ =~= Seq::<char>::empty());
        } else {
            current.push(c);
        }
        i += 1;
    }
    assert(chars@.subrange(0, chars.len() as int) =~= chars@);
    if current.len() > 0 {
        done.push(current);
    }
    done
}

/// Secrets read from `--password-stdin`.
pub struct LoginStdinLines {
    pub password: String,
    pub mfa_code: Option<String>,
}

/// How login stdin is read: the trimmed first line is the password and must
/// be non-empty; the second line, exactly as given, is the MFA code when it
/// is non-empty; any later line must be blank.
pub open spec fn spec_login_stdin(input: Seq<char>) -> Result<(Seq<char>, Option<Seq<char>>), Seq<char>> {
    let ls = lines(input);
    if ls.len() == 0 || trim(ls[0]).len() == 0 {
        Err("password is required on the first stdin line"@)
    } else if exists|i: int| 2 <= i < ls.len() && trim(#[trigger] ls[i]).len() > 0 {
        Err("login stdin accepts at most two lines: password and optional MFA code"@)
    } else {
        Ok((trim(ls[0]), if ls.len() > 1 && ls[1].len() > 0 { Some(ls[1]) } else { None }))
    }
}

/// Parses what was read from login stdin.
pub fn read_login_stdin_lines_from(input: &str) -> (r: Result<LoginStdinLines, CliError>)
    ensures
        match spec_login_stdin(input@) {
            Ok((password, code)) => r matches Ok(l) && l.password@ == password && match code {
                Some(c) => l.mfa_code matches Some(m) && m@ == c,
                None => l.mfa_code is None,
            },
            Err(m) => r matches Err(e) && e.code@ == "validation"@ && e.message@ == m,
        },
{
    let ls = split_lines(input);
    if ls.len() == 0 {
        return Err(CliError::from_public(PublicError::validation(owned("password is required on the first stdin line"))));
    }
    let password = trim_chars(&ls[0]);
    if password.len() == 0 {
        return Err(CliError::from_public(PublicError::validation(owned("password is required on the first stdin line"))));
    }
    let mut i: usize = 2;
    while i < ls.len()
        invariant
            2 <= i,
            i <= ls.len() || ls.len() < 2,
            ls@.len() == lines(input@).len(),
            lines(input@).len() > 0,
            trim(lines(input@)[0]).len() > 0,
            forall|j: int| 0 <= j < ls@.len() ==> #[trigger] ls@[j]@ == lines(input@)[j],
            forall|j: int| 2 <= j < i ==> trim(#[trigger] lines(input@)[j]).len() == 0,
        decreases ls.len() - i,
    {
        let t = trim_chars(&ls[i]);
        if t.len() > 0 {
            assert(trim(lines(input@)[i as int]).len() > 0);
            return Err(CliError::from_public(PublicError::validation(owned("login stdin accepts at most two lines: password and optional MFA code"))));
        }
        i += 1;
    }
    let mfa_code = if ls.len() > 1 && ls[1].len() > 0 {
        Some(string_of(&ls[1]))
    } else {
        None
    };
    Ok(LoginStdinLines { password: string_of(&password), mfa_code })
}

/// The confirmation printed after `auth login`, with the email, API URL
/// and credentials path made terminal-safe.
pub open spec fn spec_login_message(already_logged_in: bool, email: Seq<char>, api_url: Seq<char>, credentials_path: Seq<char>) -> Seq<char> {
    if already_logged_in {
        "Already logged in as "@ + terminal_text(email) + " ("@ + terminal_text(api_url) + ")"@
    } else {
        "Logged in as "@ + terminal_text(email) + "\nCredentials saved to "@ + terminal_text(credentials_path)
            + "\nNext: sealtask auth unlock"@
    }
}

/// The result of `auth login`.
#[derive(Debug)]
pub struct LoginResult {
    pub logged_in: bool,
    pub already_logged_in: bool,
    pub email: String,
    pub api_url: String,
    pub credentials_path: String,
}

/// The human-readable message for a login result, from terminal-safe
/// renderings of its fields.
pub fn print_login_result(result: &LoginResult, api_url: &str) -> (message: String)
    ensures
        message@ == spec_login_message(result.already_logged_in, result.email@, api_url@, result.credentials_path@),
{
    let mut m: Vec<char> = Vec::new();
    if result.already_logged_in {
        push_str(&mut m, "Already logged in as ");
        push_str(&mut m, terminal_line(result.email.as_str()).as_str());
        push_str(&mut m, " (");
        push_str(&mut m, terminal_line(api_url).as_str());
        push_str(&mut m, ")");
    } else {
        push_str(&mut m, "Logged in as ");
        push_str(&mut m, terminal_line(result.email.as_str()).as_str());
        push_str(&mut m, "\nCredentials saved to ");
        push_str(&mut m, terminal_line(result.credentials_path.as_str()).as_str());
        push_str(&mut m, "\nNext: sealtask auth unlock");
    }
    string_of(&m)
}

/// The result of unlocking or locking the local daemon.
#[derive(Debug)]
pub struct UnlockResult {
    pub unlocked: bool,
    pub mode: &'static str,
    pub ttl_seconds: Option<u64>,
}

/// The record printed after `auth unlock` or `auth lock`.
pub fn print_unlock_result(unlocked: bool, ttl_seconds: Option<u64>) -> (r: UnlockResult)
    ensures
        r.unlocked == unlocked,
        r.mode@ == "daemon"@,
        r.ttl_seconds == ttl_seconds,
{
    UnlockResult { unlocked, mode: "daemon", ttl_seconds }
}

/// The message printed after unlocking for `ttl_seconds`.
pub fn unlock_message(ttl_seconds: u64) -> (m: String)
    ensures
        m@ == "Unlocked local daemon for "@ + decimal(ttl_seconds as nat) + " seconds."@,
{
    let mut m: Vec<char> = Vec::new();
    push_str(&mut m, "Unlocked local daemon for ");
    push_decimal(&mut m, ttl_seconds);
    push_str(&mut m, " seconds.");
    string_of(&m)
}

/// Validity of a stored session.
#[derive(Debug, Clone, Copy, PartialEq, Eq, Structural)]
pub enum SessionState {
    Active,
    AccessExpired,
    RefreshExpired,
}

/// A session whose refresh token expired must log in again; one whose
/// access token expired is refreshed automatically.
pub fn session_state(refresh_expired: bool, access_expired: bool) -> (s: SessionState)
    ensures
        s == (if refresh_expired { SessionState::RefreshExpired } else if access_expired { SessionState::AccessExpired } else { SessionState::Active }),
{
    if refresh_expired {
        SessionState::RefreshExpired
    } else if access_expired {
        SessionState::AccessExpired
    } else {
        SessionState::Active
    }
}

/// The notice shown for a session state, if any.
pub fn session_state_notice(session_state: SessionState) -> (r: Option<&'static str>)
    ensures
        match session_state {
            SessionState::RefreshExpired => r matches Some(m) && m@ == "Warning: Session has expired. Please login again."@,
            SessionState::AccessExpired => r matches Some(m) && m@ == "Note: Access token has expired but will be refreshed automatically."@,
            SessionState::Active => r is None,
        },
{
    match session_state {
        SessionState::RefreshExpired => Some("Warning: Session has expired. Please login again."),
        SessionState::AccessExpired => Some("Note: Access token has expired but will be refreshed automatically."),
        SessionState::Active => None,
    }
}

/// Stored credentials that belong to another API URL than the current one.
#[derive(Debug)]
pub struct ApiUrlMismatch {
    pub stored_api_url: String,
    pub current_api_url: String,
}

/// The mismatch between the stored and current API URLs, if they differ.
pub fn api_url_mismatch(stored_api_url: &str, current_api_url: &str) -> (r: Option<ApiUrlMismatch>)
    ensures
        stored_api_url@ == current_api_url@ ==> r is None,
        stored_api_url@ != current_api_url@ ==> (r matches Some(m) && m.stored_api_url@ == stored_api_url@
            && m.current_api_url@ == current_api_url@),
{
    if crate::text::str_eq(stored_api_url, current_api_url) {
        None
    } else {
        Some(ApiUrlMismatch { stored_api_url: owned(stored_api_url), current_api_url: owned(current_api_url) })
    }
}

/// Availability of the locally persisted bootstrap secret.
#[derive(Debug)]
pub struct PersistedBootstrapStatus {
    pub status: &'static str,
    pub message: Option<String>,
}

/// Keychain state of the persisted data key.
#[derive(Debug)]
pub enum PersistedDataKeyStatus {
    Available,
    Missing,
    Unavailable(String),
}

/// A status without a message.
pub fn simple_persisted_bootstrap_status(status: &'static str) -> (r: PersistedBootstrapStatus)
    ensures
        r.status@ == status@,
        r.message is None,
{
    PersistedBootstrapStatus { status, message: None }
}

/// The status shown when no credentials are stored for the current target.
pub fn unavailable_persisted_bootstrap_status() -> (r: PersistedBootstrapStatus)
    ensures
        r.status@ == "unavailable"@,
        r.message matches Some(m) && m@ == "no credentials are stored for the current target"@,
{
    PersistedBootstrapStatus {
        status: "unavailable",
        message: Some(owned("no credentials are stored for the current target")),
    }
}

/// The displayed status of the persisted data key.
pub fn persisted_bootstrap_status(status: PersistedDataKeyStatus) -> (r: PersistedBootstrapStatus)
    ensures
        match status {
            PersistedDataKeyStatus::Available => r.status@ == "available"@ && r.message is None,
            PersistedDataKeyStatus::Missing => r.status@ == "missing"@ && r.message is None,
            PersistedDataKeyStatus::Unavailable(m) => r.status@ == "unavailable"@ && (r.message matches Some(x) && x@ == m@),
        },
{
    match status {
        PersistedDataKeyStatus::Available => simple_persisted_bootstrap_status("available"),
        PersistedDataKeyStatus::Missing => simple_persisted_bootstrap_status("missing"),
        PersistedDataKeyStatus::Unavailable(message) => PersistedBootstrapStatus {
            status: "unavailable",
            message: Some(message),
        },
    }
}

/// The unlock daemon line of `auth status`.
pub fn print_unlock_daemon_status(active: bool, expires_at_unix: Option<u64>, line_prefix: &str) -> (line: String)
    ensures
        line@ == line_prefix@ + match (active, expires_at_unix) {
            (true, Some(t)) => "Unlock daemon: active until unix "@ + decimal(t as nat),
            (true, None) => "Unlock daemon: active"@,
            (false, _) => "Unlock daemon: inactive"@,
        },
{
    let mut m: Vec<char> = Vec::new();
    push_str(&mut m, line_prefix);
    match (active, expires_at_unix) {
        (true, Some(t)) => {
            push_str(&mut m, "Unlock daemon: active until unix ");
            push_decimal(&mut m, t);
        },
        (true, None) => push_str(&mut m, "Unlock daemon: active"),
        (false, _) => push_str(&mut m, "Unlock daemon: inactive"),
    }
    string_of(&m)
}

/// The persisted bootstrap line of `auth status`.
pub fn print_persisted_bootstrap_status(status: &PersistedBootstrapStatus) -> (line: String)
    ensures
        line@ == bootstrap_text(*status),
{
    let mut m: Vec<char> = Vec::new();
    push_str(&mut m, "Persisted bootstrap: ");
    push_str(&mut m, status.status);
    match &status.message {
        Some(message) => {
            push_str(&mut m, " (");
            push_str(&mut m, terminal_line(message.as_str()).as_str());
            push_str(&mut m, ")");
        },
        None => {
            assert(m@ =~= m@ + Seq::<char>::empty());
        },
    }
    string_of(&m)
}

/// A warning attached to an otherwise successful command.
#[derive(Debug)]
pub struct WarningResult {
    pub code: String,
    pub message: String,
}

/// A warning when revoking a replaced or logged-out session failed, either
/// with a server message or with an error.
pub open spec fn spec_revoke_warning(code: Seq<char>, prefix: Seq<char>, result: Result<Option<String>, PublicError>) -> Option<(Seq<char>, Seq<char>)> {
    match result {
        Ok(Some(m)) => Some((code, prefix + m@)),
        Ok(None) => None,
        Err(e) => Some((code, prefix + e.message@)),
    }
}

fn revoke_warning(code: &str, prefix: &str, result: Result<Option<String>, PublicError>) -> (r: Option<WarningResult>)
    ensures
        match spec_revoke_warning(code@, prefix@, result) {
            Some((c, m)) => r matches Some(w) && w.code@ == c && w.message@ == m,
            None => r is None,
        },
{
    let detail = match result {
        Ok(Some(m)) => m,
        Ok(None) => return None,
        Err(e) => e.message,
    };
    let mut m: Vec<char> = Vec::new();
    push_str(&mut m, prefix);
    push_str(&mut m, detail.as_str());
    Some(WarningResult { code: owned(code), message: string_of(&m) })
}

/// Warning when the previous session could not be revoked after login.
pub fn previous_session_revoke_warning(result: Result<Option<String>, PublicError>) -> (r: Option<WarningResult>)
    ensures
        match spec_revoke_warning("login_previous_session_revoke_failed"@, "failed to revoke the previous account token on server: "@, result) {
            Some((c, m)) => r matches Some(w) && w.code@ == c && w.message@ == m,
            None => r is None,
        },
{
    revoke_warning("login_previous_session_revoke_failed", "failed to revoke the previous account token on server: ", result)
}

/// Warning when the session could not be revoked on logout.
pub fn logout_revoke_warning(result: Result<Option<String>, PublicError>) -> (r: Option<WarningResult>)
    ensures
        match spec_revoke_warning("logout_revoke_failed"@, "failed to revoke token on server: "@, result) {
            Some((c, m)) => r matches Some(w) && w.code@ == c && w.message@ == m,
            None => r is None,
        },
{
    revoke_warning("logout_revoke_failed", "failed to revoke token on server: ", result)
}

/// The error for a session revocation that did not finish in time.
pub fn session_revocation_timeout(timeout_secs: u64) -> (e: PublicError)
    ensures
        e.code@ == "unexpected"@,
        e.message@ == "server logout request timed out after "@ + decimal(timeout_secs as nat) + " seconds"@,
{
    let mut m: Vec<char> = Vec::new();
    push_str(&mut m, "server logout request timed out after ");
    push_decimal(&mut m, timeout_secs);
    push_str(&mut m, " seconds");
    PublicError::unexpected(string_of(&m))
}


/// What `auth status` shows of a signed-in session; times are already
/// formatted for display.
#[derive(Debug)]
pub struct LoggedInStatus {
    pub email: String,
    pub api_url: String,
    pub user_id: u128,
    pub access_token_expires_display: String,
    pub refresh_token_expires_display: String,
    pub session_state: SessionState,
    pub api_url_mismatch: Option<ApiUrlMismatch>,
    pub unlock_active: bool,
    pub unlock_expires_at_unix: Option<u64>,
    pub persisted_bootstrap: PersistedBootstrapStatus,
}

/// The unlock daemon line's text after its prefix.
pub open spec fn unlock_text(active: bool, expires_at_unix: Option<u64>) -> Seq<char> {
    match (active, expires_at_unix) {
        (true, Some(t)) => "Unlock daemon: active until unix "@ + decimal(t as nat),
        (true, None) => "Unlock daemon: active"@,
        (false, _) => "Unlock daemon: inactive"@,
    }
}

/// The persisted bootstrap line.
pub open spec fn bootstrap_text(status: PersistedBootstrapStatus) -> Seq<char> {
    "Persisted bootstrap: "@ + status.status@ + match status.message {
        Some(m) => " ("@ + terminal_text(m@) + ")"@,
        None => Seq::empty(),
    }
}

/// The notice text of a session state, if any.
pub open spec fn notice_text(state: SessionState) -> Option<Seq<char>> {
    match state {
        SessionState::RefreshExpired => Some("Warning: Session has expired. Please login again."@),
        SessionState::AccessExpired => Some("Note: Access token has expired but will be refreshed automatically."@),
        SessionState::Active => None,
    }
}

/// The lines `auth status` prints for a signed-in session: identity and
/// token expiry, a note when the stored API URL differs, the session
/// notice, then the unlock daemon and bootstrap lines. A blank line before
/// a block appears as a leading newline.
pub open spec fn spec_logged_in_lines(s: LoggedInStatus) -> Seq<Seq<char>> {
    let head = seq![
        "Logged in as: "@ + terminal_text(s.email@),
        "API URL: "@ + terminal_text(s.api_url@),
        "User ID: "@ + crate::codec::uuid_text(s.user_id),
        "Access token expires: "@ + s.access_token_expires_display@,
        "Refresh token expires: "@ + s.refresh_token_expires_display@
    ];
    let mismatch = match s.api_url_mismatch {
        Some(m) => seq![
            "\nNote: Stored credentials are for a different API URL."@,
            "Stored: "@ + terminal_text(m.stored_api_url@),
            "Current: "@ + terminal_text(m.current_api_url@)
        ],
        None => Seq::empty(),
    };
    let notice = match notice_text(s.session_state) {
        Some(n) => seq!["\n"@ + n],
        None => Seq::empty(),
    };
    head + mismatch + notice + seq!["\n"@ + unlock_text(s.unlock_active, s.unlock_expires_at_unix), bootstrap_text(s.persisted_bootstrap)]
}

/// A line made of `prefix` followed by `rest`.
fn line_of(prefix: &str, rest: &str) -> (l: String)
    ensures
        l@ == prefix@ + rest@,
{
    let mut m = chars_of(prefix);
    push_str(&mut m, rest);
    string_of(&m)
}

/// The lines `auth status` prints for a signed-in session.
pub fn print_logged_in_auth_status(status: &LoggedInStatus) -> (lines: Vec<String>)
    ensures
        lines@.map_values(|l: String| l@) == spec_logged_in_lines(*status),
{
    let mut lines: Vec<String> = Vec::new();
    lines.push(line_of("Logged in as: ", terminal_line(status.email.as_str()).as_str()));
    lines.push(line_of("API URL: ", terminal_line(status.api_url.as_str()).as_str()));
    lines.push(line_of("User ID: ", crate::codec::uuid_to_string(status.user_id).as_str()));
    lines.push(line_of("Access token expires: ", status.access_token_expires_display.as_str()));
    lines.push(line_of("Refresh token expires: ", status.refresh_token_expires_display.as_str()));
    if let Some(mismatch) = &status.api_url_mismatch {
        lines.push(owned("\nNote: Stored credentials are for a different API URL."));
        lines.push(line_of("Stored: ", terminal_line(mismatch.stored_api_url.as_str()).as_str()));
        lines.push(line_of("Current: ", terminal_line(mismatch.current_api_url.as_str()).as_str()));
    }
    if let Some(notice) = session_state_notice(status.session_state) {
        lines.push(line_of("\n", notice));
    }
    lines.push(print_unlock_daemon_status(status.unlock_active, status.unlock_expires_at_unix, "\n"));
    lines.push(print_persisted_bootstrap_status(&status.persisted_bootstrap));
    assert(lines@.map_values(|l: String| l@) =~= spec_logged_in_lines(*status));
    lines
}

/// The lines `auth status` prints when no session is stored.
pub fn print_logged_out_auth_status(credentials_path: &str, unlock_active: bool, unlock_expires_at_unix: Option<u64>, persisted_bootstrap: &PersistedBootstrapStatus) -> (lines: Vec<String>)
    ensures
        lines@.map_values(|l: String| l@) == seq![
            "Not logged in."@,
            "Credentials would be stored at: "@ + terminal_text(credentials_path@),
            unlock_text(unlock_active, unlock_expires_at_unix),
            bootstrap_text(*persisted_bootstrap)
        ],
{
    let mut lines: Vec<String> = Vec::new();
    lines.push(owned("Not logged in."));
    lines.push(line_of("Credentials would be stored at: ", terminal_line(credentials_path).as_str()));
    let unlock = print_unlock_daemon_status(unlock_active, unlock_expires_at_unix, "");
    assert(""@ + unlock_text(unlock_active, unlock_expires_at_unix) =~= unlock_text(unlock_active, unlock_expires_at_unix)) by {
        reveal_strlit("");
    }
    lines.push(unlock);
    lines.push(print_persisted_bootstrap_status(persisted_bootstrap));
    assert(lines@.map_values(|l: String| l@) =~= seq![
        "Not logged in."@,
        "Credentials would be stored at: "@ + terminal_text(credentials_path@),
        unlock_text(unlock_active, unlock_expires_at_unix),
        bootstrap_text(*persisted_bootstrap)
    ]);
    lines
}

} // verus!
