use sealtask::agent_commands::{
    agents_start, agents_step, AgentsAction, AgentsCommandStart, AgentsEvent, AgentsStage, AgentsState, DraftFacts,
};
use sealtask::error::PublicError;

fn step(s: AgentsState, ev: AgentsEvent) -> (AgentsState, AgentsAction) {
    agents_step(s, ev)
}

#[test]
fn approval_checks_inputs_code_instructions_and_fingerprint_in_order() {
    let (_, a) = agents_start(AgentsCommandStart::Approve {
        password_stdin: true,
        code_uses_stdin: true,
        instructions_use_stdin: false,
        fingerprint: "fp".to_string(),
    });
    match a {
        AgentsAction::Fail(e) => assert!(e.message.starts_with("agent approval can consume stdin for only one input")),
        other => panic!("unexpected {other:?}"),
    }

    let (s, a) = agents_start(AgentsCommandStart::Approve {
        password_stdin: false,
        code_uses_stdin: true,
        instructions_use_stdin: false,
        fingerprint: " fp ".to_string(),
    });
    assert!(matches!(a, AgentsAction::ReadEnrollmentCode));
    let (s, a) = step(s, AgentsEvent::Text(Ok("  code-1 \n".to_string())));
    match a {
        AgentsAction::DeriveToken(code) => assert_eq!(code, "code-1"),
        other => panic!("unexpected {other:?}"),
    }
    let (s, a) = step(s, AgentsEvent::Completed(Ok(())));
    assert!(matches!(a, AgentsAction::ReadInstructions));
    let (s, a) = step(s, AgentsEvent::Text(Ok("Work carefully.".to_string())));
    assert!(matches!(a, AgentsAction::LookupEnrollment));
    let (done, a) = step(s, AgentsEvent::Enrollment(Ok(("fp".to_string(), "other".to_string()))));
    assert_eq!(done.stage, AgentsStage::Done);
    match a {
        AgentsAction::Fail(e) => assert_eq!(e.message, "the supplied fingerprint does not match this enrollment"),
        other => panic!("unexpected {other:?}"),
    }
}

#[test]
fn approval_refuses_blank_codes_and_instructions() {
    let start = || {
        agents_start(AgentsCommandStart::Approve {
            password_stdin: false,
            code_uses_stdin: false,
            instructions_use_stdin: false,
            fingerprint: "fp".to_string(),
        })
        .0
    };
    let (_, a) = step(start(), AgentsEvent::Text(Ok(" \n".to_string())));
    match a {
        AgentsAction::Fail(e) => assert_eq!(e.message, "agent enrollment code cannot be empty"),
        other => panic!("unexpected {other:?}"),
    }
    let (s, _) = step(start(), AgentsEvent::Text(Ok("code".to_string())));
    let (s, _) = step(s, AgentsEvent::Completed(Ok(())));
    let (_, a) = step(s, AgentsEvent::Text(Ok("\t".to_string())));
    match a {
        AgentsAction::Fail(e) => assert_eq!(e.message, "agent instructions cannot be empty"),
        other => panic!("unexpected {other:?}"),
    }
}

#[test]
fn registration_checks_the_registered_handle_and_reuses_a_local_identity() {
    let (s, a) = agents_start(AgentsCommandStart::Register { has_proposed_handle: true });
    assert!(matches!(a, AgentsAction::CanonicalizeHandle));
    let (s, a) = step(s, AgentsEvent::Handle(Ok(Some("builder".to_string()))));
    assert!(matches!(a, AgentsAction::ResolveProject));
    let (s, a) = step(s, AgentsEvent::Completed(Ok(())));
    assert!(matches!(a, AgentsAction::PrepareDraft));
    let facts = DraftFacts { matching_local_identity: false, recorded_registration: None, resumed: true };
    let (s, a) = step(s, AgentsEvent::Draft(Ok(facts)));
    assert!(matches!(a, AgentsAction::RegisterEnrollment { resume: true }));
    let (s, a) = step(s, AgentsEvent::Registered(Ok(Some("other".to_string()))));
    assert!(matches!(a, AgentsAction::RecordRegistration));
    let (s, a) = step(s, AgentsEvent::Completed(Ok(())));
    assert_eq!(s.stage, AgentsStage::Done);
    match a {
        AgentsAction::Fail(e) => {
            assert_eq!(e.code, "crypto");
            assert_eq!(e.message, "agent enrollment response changed the requested identity metadata");
        }
        other => panic!("unexpected {other:?}"),
    }

    let (s, _) = agents_start(AgentsCommandStart::Register { has_proposed_handle: false });
    let (s, _) = step(s, AgentsEvent::Completed(Ok(())));
    let facts = DraftFacts { matching_local_identity: true, recorded_registration: None, resumed: false };
    let (s, a) = step(s, AgentsEvent::Draft(Ok(facts)));
    assert!(matches!(a, AgentsAction::PrintExistingEnrollment));
    let (s, a) = step(s, AgentsEvent::Completed(Ok(())));
    assert!(matches!(a, AgentsAction::CompleteDraft));
    let (s, a) = step(s, AgentsEvent::Completed(Ok(())));
    assert!(matches!(a, AgentsAction::Finish));
    let (_, a) = step(s, AgentsEvent::Completed(Ok(())));
    assert!(matches!(a, AgentsAction::Wait));
}

#[test]
fn revocation_marks_a_local_identity_and_errors_end_the_command() {
    let (s, a) = agents_start(AgentsCommandStart::Revoke);
    assert!(matches!(a, AgentsAction::RevokeAgent));
    let (s, a) = step(s, AgentsEvent::Completed(Ok(())));
    assert!(matches!(a, AgentsAction::LoadLocalIdentity));
    let (s, a) = step(s, AgentsEvent::LocalIdentity(Ok(true)));
    assert!(matches!(a, AgentsAction::MarkRevoked));
    let (s, a) = step(s, AgentsEvent::Completed(Ok(())));
    assert!(matches!(a, AgentsAction::PrintMutation("Agent revoked.")));
    let (_, a) = step(s, AgentsEvent::Completed(Err(PublicError::unexpected("stdout closed".to_string()))));
    match a {
        AgentsAction::Fail(e) => assert_eq!(e.message, "stdout closed"),
        other => panic!("unexpected {other:?}"),
    }
}
