use sealtask::claim::{
    build_prompt, check_claim_against_grant, AgentClaim, ChecklistLine, ClaimedRun, GrantedIdentity,
    TaskText, AGENT_PERMISSION_PRESET,
};

const AGENT_ID: u128 = 0x0190_0000_0000_7000_8000_0000_0000_0001;
const WORK_LIST_ID: u128 = 0x0190_0000_0000_7000_8000_0000_0000_0002;
const RUN_ID: u128 = 0x0190_0000_0000_7000_8000_0000_0000_0003;
const DELEGATION_ID: u128 = 0x0190_0000_0000_7000_8000_0000_0000_0004;

fn identity() -> GrantedIdentity {
    GrantedIdentity {
        agent_id: AGENT_ID,
        handle: Some("implementer".to_string()),
        display_name: Some("Implementation Agent".to_string()),
        work_list_id: WORK_LIST_ID,
        instructions_revision: 1,
    }
}

fn claim() -> AgentClaim {
    AgentClaim {
        run: ClaimedRun { id: RUN_ID, delegation_id: DELEGATION_ID, work_list_id: WORK_LIST_ID, instructions_revision: 1 },
        permission_preset: AGENT_PERMISSION_PRESET.to_string(),
    }
}

fn uuid(id: u128) -> String {
    uuid::Uuid::from_u128(id).to_string()
}

#[test]
fn prompt_keeps_identity_role_and_assignment_distinct_from_the_user() {
    let payload = TaskText { rich_text_blocks: None, checklist: None };
    let prompt = build_prompt(&identity(), &claim(), "Implement, do not review.", "Task", &payload);
    assert!(prompt.contains(&format!("agent principal {}", uuid(AGENT_ID))));
    assert!(prompt.contains("Managed role instructions"));
    assert!(prompt.contains("Assigned task"));
    assert!(prompt.contains(&uuid(RUN_ID)));
    assert!(!prompt.contains("implementer"));
    assert!(!prompt.contains("Implementation Agent"));
    assert!(!prompt.contains("acting as the user"));
}

#[test]
fn prompt_lays_out_body_blocks_and_checklist_in_order() {
    let payload = TaskText {
        rich_text_blocks: Some(vec!["".to_string(), "First".to_string(), "Second".to_string()]),
        checklist: Some(vec![
            ChecklistLine { is_done: true, title: "done item".to_string() },
            ChecklistLine { is_done: false, title: "open item".to_string() },
        ]),
    };
    let mut run_claim = claim();
    run_claim.run.instructions_revision = -3;
    let prompt = build_prompt(&identity(), &run_claim, "Role", "Title text", &payload);
    let expected = format!(
        "You are the SealTask agent principal {}, running assignment {} as run {}.\n\nManaged role instructions (revision -3):\nRole\n\nAssigned task:\nTitle: Title text\n\nFirst\nSecond\n- [x] done item\n- [ ] open item\n\nImplement only this assigned task in the isolated git worktree. Follow repository AGENTS.md instructions, keep changes focused, run proportionate verification, and finish with a concise summary of changes and tests. Do not commit, publish, merge, push, or access unrelated SealTask tasks.",
        uuid(AGENT_ID),
        uuid(DELEGATION_ID),
        uuid(RUN_ID)
    );
    assert_eq!(prompt, expected);
}

#[test]
fn claim_matching_the_grant_yields_the_signed_names() {
    let (handle, display_name) = check_claim_against_grant(&identity(), &claim()).expect("matching claim");
    assert_eq!(handle, "implementer");
    assert_eq!(display_name, "Implementation Agent");
}

#[test]
fn claim_for_another_work_list_preset_or_revision_is_refused() {
    let mut other_list = claim();
    other_list.run.work_list_id = 7;
    let mut other_preset = claim();
    other_preset.permission_preset = "admin".to_string();
    let mut other_revision = claim();
    other_revision.run.instructions_revision = 2;
    for refused in [other_list, other_preset, other_revision] {
        let error = check_claim_against_grant(&identity(), &refused).expect_err("mismatched claim");
        assert_eq!(error.code, "validation");
        assert_eq!(error.message, "agent claim does not match the local project grant");
    }
}

#[test]
fn identity_without_handle_or_display_name_cannot_prepare_a_claim() {
    let mut no_handle = identity();
    no_handle.handle = None;
    let error = check_claim_against_grant(&no_handle, &claim()).expect_err("missing handle");
    assert_eq!(error.message, "active agent identity is missing its handle");
    let mut no_display = identity();
    no_display.display_name = None;
    let error = check_claim_against_grant(&no_display, &claim()).expect_err("missing display name");
    assert_eq!(error.message, "active agent identity is missing its display name");
}
