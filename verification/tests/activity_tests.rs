use std::collections::HashSet;
use sealtask::activity::{
    checked_next_cursor, validate_activity_page, validate_poll_interval, ActivityCollector, ActivityEvent,
    ActivityPage, ActivityRenderer, PageStep, activity_line, bounded_activity_line, AuditEventRow, RenderAction, MAX_ACTIVITY_PAGES, MAX_POLL_INTERVAL_NANOS,
    MIN_POLL_INTERVAL_NANOS,
};
use sealtask::agents::{cache_mode, check_agent_instructions, check_approval_inputs, check_enrollment_fingerprint, check_enrollment_handle, enrollment_code_text, entity_label, print_agents, validate_approved_agent_response, AgentEnrollmentResponse, AgentGrant, AgentResponse, ReadCacheMode, ResolvedEntity};

const FIVE_SECONDS_NANOS: u128 = 5_000_000_000;

fn event(id: u128, occurred_at: i128) -> ActivityEvent {
    ActivityEvent { id, occurred_at }
}

#[test]
fn repeated_activity_cursors_are_rejected() {
    let cursor: u128 = 0x0197f52a_89f0_7b50_8000_000000000009;
    let mut seen = HashSet::new();
    assert_eq!(checked_next_cursor(Some(cursor), &mut seen).expect("first cursor"), Some(cursor));
    let error = checked_next_cursor(Some(cursor), &mut seen).expect_err("repeat rejected");
    assert_eq!(error.code(), "response_json_schema");
}

#[test]
fn poll_interval_bounds_are_operator_safe() {
    assert!(MIN_POLL_INTERVAL_NANOS <= FIVE_SECONDS_NANOS);
    assert!(MAX_POLL_INTERVAL_NANOS >= FIVE_SECONDS_NANOS);
    assert!(MIN_POLL_INTERVAL_NANOS < MAX_POLL_INTERVAL_NANOS);
}

#[test]
fn poll_intervals_outside_the_bounds_are_refused() {
    assert!(validate_poll_interval(MIN_POLL_INTERVAL_NANOS).is_ok());
    assert!(validate_poll_interval(MAX_POLL_INTERVAL_NANOS).is_ok());
    let error = validate_poll_interval(MIN_POLL_INTERVAL_NANOS - 1).expect_err("too short");
    assert_eq!(error.to_string(), "activity poll interval must be between 250ms and 5m");
    assert!(validate_poll_interval(MAX_POLL_INTERVAL_NANOS + 1).is_err());
}

#[test]
fn empty_activity_pages_cannot_extend_pagination() {
    let page = ActivityPage { events: Vec::new(), next_cursor: Some(77) };
    let error = validate_activity_page(&page, 1, &mut HashSet::new()).expect_err("empty continuation");
    assert_eq!(error.code(), "response_json_schema");
}

#[test]
fn activity_page_count_is_bounded_even_with_distinct_cursors() {
    let page = ActivityPage { events: Vec::new(), next_cursor: None };
    let error = validate_activity_page(&page, MAX_ACTIVITY_PAGES + 1, &mut HashSet::new()).expect_err("page cap");
    assert_eq!(error.code(), "response_json_schema");
}

#[test]
fn duplicate_activity_event_ids_are_rejected() {
    let event_id: u128 = 0x0197f52a_89f0_7b50_8000_00000000000a;
    let page = ActivityPage { events: vec![event(event_id, 1), event(event_id, 1)], next_cursor: None };
    let error = validate_activity_page(&page, 1, &mut HashSet::new()).expect_err("duplicate event");
    assert_eq!(error.code(), "response_json_schema");
}

#[test]
fn history_stops_at_the_cutoff_and_is_returned_oldest_first() {
    let mut collector = ActivityCollector::new();
    let page = ActivityPage { events: vec![event(3, 300), event(2, 200)], next_cursor: Some(10) };
    assert!(matches!(collector.accept_history_page(&page, 100).expect("page"), PageStep::Next(10)));
    let page = ActivityPage { events: vec![event(1, 150), event(0, 50)], next_cursor: Some(11) };
    assert!(matches!(collector.accept_history_page(&page, 100).expect("page"), PageStep::Done));
    let (events, anchor) = collector.finish();
    assert_eq!(events.iter().map(|e| e.id).collect::<Vec<_>>(), vec![1, 2, 3]);
    assert_eq!(anchor, Some(3));
}

#[test]
fn catch_up_stops_at_the_anchor() {
    let mut collector = ActivityCollector::new();
    let page = ActivityPage { events: vec![event(9, 9), event(8, 8), event(7, 7)], next_cursor: Some(4) };
    assert!(matches!(collector.accept_catch_up_page(&page, Some(8)).expect("page"), PageStep::Done));
    let (events, anchor) = collector.finish();
    assert_eq!(events.iter().map(|e| e.id).collect::<Vec<_>>(), vec![9]);
    assert_eq!(anchor, Some(9));
}

#[test]
fn live_rows_keep_the_newest_screenful() {
    let mut renderer = ActivityRenderer::new(false, true);
    assert_eq!(renderer.render_live(80), "Following account activity · connected · Ctrl-C to stop\nNo activity in the selected history window.");
    for i in 0..25 {
        renderer.push_row(format!("row {i}"));
    }
    assert_eq!(renderer.recent.len(), 20);
    assert_eq!(renderer.recent[0], "row 5");
    assert!(matches!(renderer.retrying(2, 4, "transport_timeout", 80), RenderAction::RenderLive(frame) if frame.contains("retrying in 4s")));
    assert!(matches!(renderer.connected(80), RenderAction::RenderLive(_)));
    assert!(matches!(renderer.connected(80), RenderAction::Nothing));
    let mut appending = ActivityRenderer::new(false, false);
    assert!(matches!(appending.retrying(3, 8, "rate_limited", 80), RenderAction::Stderr(line)
        if line == "warning: activity poll failed after rate_limited; retrying in 8s (attempt 3)"));
    assert_eq!(appending.next_sequence(), 0);
    assert_eq!(appending.next_sequence(), 1);
    let (finish, error) = appending.interrupted();
    assert!(!finish);
    assert_eq!(error.exit_code(), 130);
}

#[test]
fn entity_labels_and_cache_modes_are_described() {
    let entity = ResolvedEntity { id: 0x0197f52a_89f0_7b50_8000_000000000001, name: Some("Roadmap".to_string()) };
    assert_eq!(entity_label("project", &entity), "project \"Roadmap\" (0197f52a-89f0-7b50-8000-000000000001)");
    let unnamed = ResolvedEntity { id: 1, name: None };
    assert_eq!(entity_label("task", &unnamed), "task 00000000-0000-0000-0000-000000000001");
    assert_eq!(cache_mode(ReadCacheMode::Online), "online population");
    assert_eq!(cache_mode(ReadCacheMode::Offline), "offline reads only");
}

#[test]
fn approved_agents_must_match_their_enrollment() {
    let key = "AAAAAAAAAAAAAAAAAAAAAAAAAAAAAAAAAAAAAAAAAAA";
    let approved = || AgentResponse {
        id: 5,
        owner_user_id: Some(6),
        status: "active".to_string(),
        handle: Some("builder".to_string()),
        display_name: Some("Builder".to_string()),
        fingerprint: "fp".to_string(),
        auth_public_key: key.to_string(),
        recipient_public_key: key.to_string(),
        grant: Some(AgentGrant { work_list_id: 7, permission_preset: "assigned_task_worker".to_string(), instructions_revision: 2 }),
    };
    let enrollment = AgentEnrollmentResponse { agent_id: 5, auth_public_key: key.to_string(), recipient_public_key: key.to_string() };
    assert!(validate_approved_agent_response(&approved(), &enrollment, "fp", "builder", "Builder", 7, 2).is_ok());
    let mismatch = validate_approved_agent_response(&approved(), &enrollment, "fp", "builder", "Builder", 7, 3).expect_err("revision");
    assert_eq!(mismatch.code(), "crypto");
    let mut bad_key = approved();
    bad_key.auth_public_key = "AAAA".to_string();
    let error = validate_approved_agent_response(&bad_key, &enrollment, "fp", "builder", "Builder", 7, 2).expect_err("short key");
    assert_eq!(error.to_string(), "invalid agent authentication public key length");
    let mut ungranted = approved();
    ungranted.grant = None;
    assert_eq!(
        validate_approved_agent_response(&ungranted, &enrollment, "fp", "builder", "Builder", 7, 2).expect_err("grant").to_string(),
        "agent approval response omitted the authenticated project grant"
    );
}

#[test]
fn agent_table_lists_each_identity_or_says_there_are_none() {
    assert_eq!(print_agents(&Vec::new()), vec!["No agent identities.".to_string()]);
    let agent = |id: u128, handle: Option<&str>, grant: Option<u128>| AgentResponse {
        id,
        owner_user_id: None,
        status: "pending".to_string(),
        handle: handle.map(str::to_string),
        display_name: None,
        fingerprint: String::new(),
        auth_public_key: String::new(),
        recipient_public_key: String::new(),
        grant: grant.map(|work_list_id| AgentGrant {
            work_list_id,
            permission_preset: "assigned_task_worker".to_string(),
            instructions_revision: 1,
        }),
    };
    let lines = print_agents(&vec![agent(1, Some("builder"), Some(2)), agent(3, None, None)]);
    assert_eq!(
        lines,
        vec![
            format!("{}\tbuilder\tpending\t{}", uuid::Uuid::from_u128(1), uuid::Uuid::from_u128(2)),
            format!("{}\t-\tpending\t-", uuid::Uuid::from_u128(3)),
        ]
    );
}

#[test]
fn agent_approval_inputs_are_checked_before_any_request() {
    assert!(check_approval_inputs(false, true, false).is_ok());
    assert!(check_approval_inputs(true, false, false).is_ok());
    for (password, code, instructions) in [(true, true, false), (true, false, true), (false, true, true)] {
        let error = check_approval_inputs(password, code, instructions).expect_err("stdin conflict");
        assert_eq!(
            error.message,
            "agent approval can consume stdin for only one input; use files for the enrollment code and instructions when --password-stdin is set"
        );
    }
    assert_eq!(enrollment_code_text("  ABCD-1234\n").expect("code"), "ABCD-1234");
    assert_eq!(enrollment_code_text(" \n\t").expect_err("empty code").message, "agent enrollment code cannot be empty");
    assert!(check_agent_instructions("Implement tasks.").is_ok());
    assert_eq!(check_agent_instructions("\n  ").expect_err("empty").message, "agent instructions cannot be empty");
    assert!(check_enrollment_fingerprint("fp-1", "fp-1", " fp-1\n").is_ok());
    let error = check_enrollment_fingerprint("fp-1", "fp-2", "fp-2").expect_err("reported mismatch");
    assert_eq!(error.message, "the supplied fingerprint does not match this enrollment");
    assert!(check_enrollment_fingerprint("fp-1", "fp-1", "fp-9").is_err());
}

#[test]
fn registered_enrollment_must_keep_the_requested_handle() {
    assert!(check_enrollment_handle(&Some("builder".to_string()), &Some("builder".to_string())).is_ok());
    assert!(check_enrollment_handle(&None, &None).is_ok());
    for (registered, requested) in [(Some("other"), Some("builder")), (None, Some("builder")), (Some("builder"), None)] {
        let error = check_enrollment_handle(&registered.map(str::to_string), &requested.map(str::to_string))
            .expect_err("changed metadata");
        assert_eq!(error.code, "crypto");
        assert_eq!(error.message, "agent enrollment response changed the requested identity metadata");
    }
}

#[test]
fn retry_warnings_and_live_rows_are_terminal_safe() {
    let mut appending = ActivityRenderer::new(false, false);
    match appending.retrying(1, 2, "code\n\u{1b}[2J\u{202e}", 80) {
        RenderAction::Stderr(line) => {
            assert!(!line.contains('\n') && !line.contains('\u{1b}') && !line.contains('\u{202e}'));
            assert_eq!(line, "warning: activity poll failed after code \u{fffd}[2J\u{fffd}; retrying in 2s (attempt 1)");
        }
        other => panic!("unexpected {other:?}"),
    }
    let mut jsonl = ActivityRenderer::new(true, false);
    match jsonl.retrying(1, 2, "code\n", 80) {
        RenderAction::Warning(code, message) => {
            assert_eq!(code, "activity_retry");
            assert_eq!(message, "activity poll failed after code\n; retrying in 2s (attempt 1)");
        }
        other => panic!("unexpected {other:?}"),
    }
    let mut live = ActivityRenderer::new(false, true);
    live.push_row("x".repeat(100));
    let frame = live.render_live(24);
    let row = frame.lines().nth(1).expect("row");
    assert_eq!(row.chars().count(), 24);
    assert!(row.ends_with('\u{2026}'));
}

fn audit_row(name: Option<&str>, action: &str, entity_type: &str) -> AuditEventRow {
    AuditEventRow {
        occurred_at_nanos: 1_662_921_288_000_000_000,
        actor_user_name: name.map(str::to_string),
        actor_user_id: Some(0x0197f52a_89f0_7b50_8000_000000000001),
        actor_type: "user".to_string(),
        action: action.to_string(),
        entity_type: entity_type.to_string(),
        entity_id: 0xabcdef12_0000_0000_0000_000000000000,
    }
}

#[test]
fn activity_lines_strip_terminal_controls() {
    let line = activity_line(&audit_row(Some("name\rforged"), "updated\nforged", "task\u{1b}[2J"));
    assert!(!line.contains('\n'));
    assert!(!line.contains('\r'));
    assert!(!line.contains('\u{1b}'));
    assert!(line.starts_with("2022-09-11T18:34:48+00:00  "));
    assert!(line.ends_with(" id:abcdef12"));
}

#[test]
fn retained_live_activity_lines_are_sanitized_and_width_bounded() {
    let long = format!("operator\u{1b}[31m{}", "x".repeat(100));
    let line = bounded_activity_line(&audit_row(Some(&long), "updated", "task"), 24);
    assert!(!line.contains('\u{1b}'));
    assert!(line.chars().count() <= 24);
    let blank_name = activity_line(&audit_row(Some("  "), "created", "task"));
    assert!(blank_name.contains("user:0197f52a"));
    assert!(blank_name.contains("  created             "));
}
