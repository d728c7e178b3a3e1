use sealtask::auth::{
    logout_revoke_warning, mfa_challenge_is_terminal, mfa_retry_at, persisted_bootstrap_status, previous_session_revoke_warning,
    print_login_result, print_persisted_bootstrap_status, print_unlock_result, read_login_stdin_lines_from,
    session_revocation_timeout, unavailable_persisted_bootstrap_status, unlock_message, LoginResult, PersistedDataKeyStatus,
};
use sealtask::error::PublicError;

#[test]
fn test_should_accept_password_only_from_login_stdin() {
    let parsed = read_login_stdin_lines_from("password\n").ok().expect("parse");
    assert_eq!(parsed.password, "password");
    assert_eq!(parsed.mfa_code, None);
}

#[test]
fn test_should_preserve_optional_login_factor_line_exactly() {
    for (input, expected_password, expected_code) in [
        ("  password  \n", "password", None),
        ("  password  \r\n", "password", None),
        ("password\n\n", "password", None),
        ("password\r\n\r\n", "password", None),
        ("password\n \n", "password", Some(" ")),
        ("password\n\t\n", "password", Some("\t")),
        ("password\n 012345\n", "password", Some(" 012345")),
        ("password\n012345 \n", "password", Some("012345 ")),
        ("password\n０１２３４５\n", "password", Some("０１２３４５")),
        ("password\n012345\n", "password", Some("012345")),
        (
            "password\nST2-00112233-44556677-8899AABB-CCDDEEFF\n",
            "password",
            Some("ST2-00112233-44556677-8899AABB-CCDDEEFF"),
        ),
        ("password\nST2-not-a-canonical-backup-code\n", "password", Some("ST2-not-a-canonical-backup-code")),
        ("password\r\n 012345\r\n", "password", Some(" 012345")),
        ("password\n\r", "password", Some("\r")),
    ] {
        let parsed = read_login_stdin_lines_from(input).ok().expect("parse");
        assert_eq!(parsed.password, expected_password);
        assert_eq!(parsed.mfa_code.as_deref(), expected_code);
    }
}

#[test]
fn test_should_reject_additional_nonempty_login_stdin_lines() {
    let error = match read_login_stdin_lines_from("password\n012345\nunexpected\n") {
        Ok(_) => panic!("extra input must fail"),
        Err(error) => error,
    };
    assert!(error.to_string().contains("at most two lines"));

    let parsed = read_login_stdin_lines_from("password\n012345\n \n\t\n")
        .ok()
        .expect("extra whitespace-only lines retain the existing accepted contract");
    assert_eq!(parsed.mfa_code.as_deref(), Some("012345"));
}

#[test]
fn login_stdin_without_password_is_rejected() {
    for input in ["", "   \n012345\n"] {
        let error = match read_login_stdin_lines_from(input) {
            Ok(_) => panic!("a password is required"),
            Err(error) => error,
        };
        assert_eq!(error.code(), "validation");
        assert!(error.to_string().contains("password is required"));
    }
}

#[test]
fn test_should_not_wait_to_or_beyond_mfa_deadline() {
    let now: u64 = 1_000_000;
    assert_eq!(mfa_retry_at(now, 4, now + 4_100), Some(now + 4_000));
    assert_eq!(mfa_retry_at(now, 5, now + 5_000), None);
    assert_eq!(mfa_retry_at(now, 3, now + 5_000), Some(now + 3_000));
    assert_eq!(mfa_retry_at(now + 2_000, 3, now + 5_000), None);
    assert_eq!(mfa_retry_at(now, 61, now + 300_000), None);
}

#[test]
fn test_should_not_prompt_after_mfa_attempt_budget_is_exhausted() {
    assert!(mfa_challenge_is_terminal(240, 0));
    assert!(mfa_challenge_is_terminal(0, 7));
    assert!(!mfa_challenge_is_terminal(240, 7));
}

#[test]
fn login_and_unlock_messages_name_the_account_and_duration() {
    let mut result = LoginResult {
        logged_in: true,
        already_logged_in: false,
        email: "ada@example.com".to_string(),
        api_url: "https://api.example".to_string(),
        credentials_path: "/home/ada/.sealtask/credentials.json".to_string(),
    };
    assert_eq!(
        print_login_result(&result, "https://api.example"),
        "Logged in as ada@example.com\nCredentials saved to /home/ada/.sealtask/credentials.json\nNext: sealtask auth unlock"
    );
    result.already_logged_in = true;
    assert_eq!(
        print_login_result(&result, "https://api.example"),
        "Already logged in as ada@example.com (https://api.example)"
    );
    let unlock = print_unlock_result(true, Some(900));
    assert!(unlock.unlocked);
    assert_eq!(unlock.mode, "daemon");
    assert_eq!(unlock.ttl_seconds, Some(900));
    assert_eq!(unlock_message(900), "Unlocked local daemon for 900 seconds.");
}

#[test]
fn persisted_bootstrap_states_are_reported_with_their_reason() {
    let available = persisted_bootstrap_status(PersistedDataKeyStatus::Available);
    assert_eq!(print_persisted_bootstrap_status(&available), "Persisted bootstrap: available");
    let missing = persisted_bootstrap_status(PersistedDataKeyStatus::Missing);
    assert_eq!(print_persisted_bootstrap_status(&missing), "Persisted bootstrap: missing");
    let locked = persisted_bootstrap_status(PersistedDataKeyStatus::Unavailable("keychain locked".to_string()));
    assert_eq!(print_persisted_bootstrap_status(&locked), "Persisted bootstrap: unavailable (keychain locked)");
    let none = unavailable_persisted_bootstrap_status();
    assert_eq!(
        print_persisted_bootstrap_status(&none),
        "Persisted bootstrap: unavailable (no credentials are stored for the current target)"
    );
}

#[test]
fn failed_revocations_become_warnings_and_timeouts_name_their_bound() {
    assert!(logout_revoke_warning(Ok(None)).is_none());
    let warning = logout_revoke_warning(Ok(Some("token already revoked".to_string()))).expect("warning");
    assert_eq!(warning.code, "logout_revoke_failed");
    assert_eq!(warning.message, "failed to revoke token on server: token already revoked");
    let warning = previous_session_revoke_warning(Err(PublicError::unexpected("network down".to_string())))
        .expect("warning");
    assert_eq!(warning.code, "login_previous_session_revoke_failed");
    assert_eq!(warning.message, "failed to revoke the previous account token on server: network down");
    let timeout = session_revocation_timeout(5);
    assert_eq!(timeout.code, "unexpected");
    assert_eq!(timeout.message, "server logout request timed out after 5 seconds");
}
