use sealtask::error::PublicError;
use sealtask::login::{
    equal_ignoring_ascii_case, local_auth_state_unchanged, login_start, login_step, BeginOutcome, LoginAction, LoginEvent,
    LoginStage, LoginStart, MfaAnswer, PreviousSession, StoredLogin,
};

fn start(stored: Option<StoredLogin>, email: Option<&str>, password_stdin: bool, non_interactive: bool) -> LoginStart {
    LoginStart {
        stored,
        normalized_api_url: "https://api.example".to_string(),
        email_flag: email.map(str::to_string),
        password_stdin,
        non_interactive,
    }
}

fn stored(email: &str, refresh_expired: bool) -> Option<StoredLogin> {
    Some(StoredLogin { api_url: "https://api.example".to_string(), email: email.to_string(), refresh_expired })
}

fn failure(action: LoginAction) -> String {
    match action {
        LoginAction::Fail(e) => e.message,
        other => panic!("expected a failure, got {other:?}"),
    }
}

#[test]
fn an_existing_login_is_reused_for_the_same_account() {
    let (s, a) = login_start(start(stored("Ann@Example.com", false), Some("  ann@example.COM "), false, false));
    assert_eq!(s.stage, LoginStage::Done);
    match a {
        LoginAction::PrintLogin { already_logged_in, email, warnings } => {
            assert!(already_logged_in);
            assert_eq!(email, "Ann@Example.com");
            assert!(warnings.is_empty());
        }
        other => panic!("unexpected {other:?}"),
    }
    let (_, a) = login_start(start(stored("ann@example.com", true), None, false, false));
    assert!(matches!(a, LoginAction::PromptEmail));
    assert!(equal_ignoring_ascii_case("ABC", "abc"));
    assert!(!equal_ignoring_ascii_case("abc", "abd"));
}

#[test]
fn non_interactive_logins_need_their_flags_and_an_email() {
    assert_eq!(failure(login_start(start(None, None, true, true)).1), "--non-interactive auth login requires --email");
    assert_eq!(
        failure(login_start(start(None, Some("a@b"), false, true)).1),
        "--non-interactive auth login requires --password-stdin"
    );
    assert_eq!(failure(login_start(start(None, Some("   "), true, true)).1), "email is required");
    let (s, a) = login_start(start(None, None, false, false));
    assert!(matches!(a, LoginAction::PromptEmail));
    let (_, a) = login_step(s, LoginEvent::Email(Ok(String::new())));
    assert_eq!(failure(a), "email is required");
}

#[test]
fn mfa_codes_from_stdin_are_used_once_and_locked_codes_fall_back_to_backup_codes() {
    let (s, a) = login_start(start(None, Some("a@b"), false, false));
    assert!(matches!(a, LoginAction::ReadPassword { from_stdin: false }));
    let (s, a) = login_step(s, LoginEvent::Password(Ok(None)));
    assert!(matches!(a, LoginAction::BeginLogin));
    let (s, a) = login_step(s, LoginEvent::Began(Ok(BeginOutcome::MfaRequired { attempts_remaining: 3 })));
    assert!(matches!(a, LoginAction::CheckChallenge));
    let (s, a) = login_step(s, LoginEvent::Challenge(120));
    assert!(matches!(a, LoginAction::PromptCode { backup_only: false, attempts_remaining: 3 }));
    let (s, a) = login_step(s, LoginEvent::Code(Ok("123456".to_string())));
    assert!(matches!(a, LoginAction::CompleteMfa(ref c) if c == "123456"));
    let (s, a) = login_step(
        s,
        LoginEvent::Verified(MfaAnswer::TotpLocked {
            message: "locked\u{1b}[2J".to_string(),
            backup_code_available: true,
            challenge_attempts: 2,
        }),
    );
    assert!(matches!(a, LoginAction::ShowMessage(ref m) if m == "locked\u{fffd}[2J"));
    let (s, a) = login_step(s, LoginEvent::Shown(Ok(())));
    assert!(matches!(a, LoginAction::CheckChallenge));
    let (s, a) = login_step(s, LoginEvent::Challenge(100));
    assert!(matches!(a, LoginAction::PromptCode { backup_only: true, attempts_remaining: 2 }));
    let (s, _) = login_step(s, LoginEvent::Code(Ok("backup-1".to_string())));
    let (s, a) = login_step(
        s,
        LoginEvent::Verified(MfaAnswer::Retryable {
            message: "Wrong code.".to_string(),
            challenge_attempts: 2,
            attempts_remaining: Some(1),
            retry_after_seconds: Some(5),
        }),
    );
    assert!(matches!(a, LoginAction::ShowMessage(_)));
    let (s, a) = login_step(s, LoginEvent::Shown(Ok(())));
    assert!(matches!(a, LoginAction::WaitForRetry { seconds: 5 }));
    let (_, a) = login_step(s, LoginEvent::Waited(Ok((false, false))));
    assert_eq!(failure(a), "Wrong code. Retry the login after 5 seconds.");

    let (s, _) = login_start(start(None, Some("a@b"), true, true));
    let (s, _) = login_step(s, LoginEvent::Password(Ok(Some("654321".to_string()))));
    let (s, _) = login_step(s, LoginEvent::Began(Ok(BeginOutcome::MfaRequired { attempts_remaining: 3 })));
    let (s, a) = login_step(s, LoginEvent::Challenge(60));
    assert!(matches!(a, LoginAction::CompleteMfa(ref c) if c == "654321"));
    let (s, a) = login_step(
        s,
        LoginEvent::Verified(MfaAnswer::Retryable {
            message: "Wrong code.".to_string(),
            challenge_attempts: 2,
            attempts_remaining: None,
            retry_after_seconds: None,
        }),
    );
    assert_eq!(failure(a), "Wrong code.");
    assert_eq!(s.stage, LoginStage::Done);
}

#[test]
fn expired_challenges_and_missing_codes_end_the_login() {
    let (s, _) = login_start(start(None, Some("a@b"), true, false));
    let (s, _) = login_step(s, LoginEvent::Password(Ok(None)));
    let (s, _) = login_step(s, LoginEvent::Began(Ok(BeginOutcome::MfaRequired { attempts_remaining: 3 })));
    let (_, a) = login_step(s, LoginEvent::Challenge(30));
    assert!(matches!(a, LoginAction::RequireMfaInput));

    let (s, _) = login_start(start(None, Some("a@b"), false, false));
    let (s, _) = login_step(s, LoginEvent::Password(Ok(None)));
    let (s, _) = login_step(s, LoginEvent::Began(Ok(BeginOutcome::MfaRequired { attempts_remaining: 3 })));
    let (_, a) = login_step(s, LoginEvent::Challenge(0));
    assert_eq!(failure(a), "MFA challenge expired; restart sign-in");
}

#[test]
fn a_replaced_session_is_revoked_and_its_failure_reported_as_a_warning() {
    let (s, _) = login_start(start(None, Some("a@b"), false, false));
    let (s, _) = login_step(s, LoginEvent::Password(Ok(None)));
    let (s, a) = login_step(s, LoginEvent::Began(Ok(BeginOutcome::Authenticated)));
    assert!(matches!(a, LoginAction::Persist));
    let previous = PreviousSession { refresh_expired: false, same_refresh_token: false };
    let (s, a) = login_step(s, LoginEvent::Persisted(Ok(("A@b".to_string(), Some(previous)))));
    assert!(matches!(a, LoginAction::RevokePrevious));
    let (_, a) = login_step(s, LoginEvent::Revoked(Err(PublicError::unexpected("offline".to_string()))));
    match a {
        LoginAction::PrintLogin { already_logged_in, email, warnings } => {
            assert!(!already_logged_in);
            assert_eq!(email, "A@b");
            assert_eq!(warnings.len(), 1);
            assert_eq!(warnings[0].code, "login_previous_session_revoke_failed");
            assert_eq!(warnings[0].message, "failed to revoke the previous account token on server: offline");
        }
        other => panic!("unexpected {other:?}"),
    }
    assert!(local_auth_state_unchanged("https://a", "https://a", 1, 1, " key ", "key"));
    assert!(!local_auth_state_unchanged("https://a", "https://a", 1, 2, "key", "key"));
}
