use sealtask::document::{private_task_document, DocumentChecklistItem, DocumentComment, TaskDetail};

fn detail(title: &str, body: Option<&str>) -> TaskDetail {
    TaskDetail {
        id: 0x0190_0000_0000_7000_8000_0000_0000_0031,
        reference_title_label: format!("OPS-0031 {title}"),
        reference_label: "OPS-0031".to_string(),
        title: Some(title.to_string()),
        work_list_title: None,
        is_completed: false,
        archived: false,
        priority: None,
        due_at: None,
        body_markdown: body.map(str::to_string),
        checklist: None,
        attachment_file_names: None,
        comments: Vec::new(),
    }
}

#[test]
fn private_document_keeps_decrypted_fields_out_of_debug_contracts() {
    let title_canary = "private-title-canary";
    let body_canary = "private-body-canary";
    let (title, lines) = private_task_document(&detail(title_canary, Some(body_canary)));
    assert!(title.contains(title_canary));
    assert!(title.contains("OPS-0031"));
    assert!(lines.iter().any(|line| line.contains(body_canary)));
    assert!(lines.iter().any(|line| line == "Reference: OPS-0031"));
}

#[test]
fn private_document_lays_out_every_section() {
    let mut task = detail("Ship it", Some("line one\r\nline two\n"));
    task.work_list_title = Some("Operations".to_string());
    task.is_completed = true;
    task.archived = true;
    task.priority = Some(-2);
    task.due_at = Some("2030-01-02T03:04:05+00:00".to_string());
    task.checklist = Some(vec![
        DocumentChecklistItem { is_done: true, title: "draft".to_string() },
        DocumentChecklistItem { is_done: false, title: "review".to_string() },
    ]);
    task.comments = vec![
        DocumentComment { created_at: "2030-01-01T00:00:00+00:00".to_string(), body_markdown: Some("looks good".to_string()) },
        DocumentComment { created_at: "2030-01-01T01:00:00+00:00".to_string(), body_markdown: None },
    ];
    task.attachment_file_names = Some(vec!["spec.pdf".to_string()]);
    let (title, lines) = private_task_document(&task);
    assert_eq!(title, "Task · OPS-0031 Ship it");
    let id = uuid::Uuid::from_u128(task.id).to_string();
    let expected: Vec<String> = vec![
        "Title: Ship it".to_string(),
        "Reference: OPS-0031".to_string(),
        format!("ID: {id}"),
        "Project: Operations".to_string(),
        "Status: completed · archived".to_string(),
        "Priority: -2".to_string(),
        "Due: 2030-01-02T03:04:05+00:00".to_string(),
        String::new(),
        "Description".to_string(),
        "line one".to_string(),
        "line two".to_string(),
        String::new(),
        "Checklist".to_string(),
        "[x] draft".to_string(),
        "[ ] review".to_string(),
        String::new(),
        "Comments (2)".to_string(),
        "— 2030-01-01T00:00:00+00:00".to_string(),
        "looks good".to_string(),
        "— 2030-01-01T01:00:00+00:00".to_string(),
        "<unreadable comment>".to_string(),
        String::new(),
        "Attachments (1)".to_string(),
        "• spec.pdf".to_string(),
    ];
    assert_eq!(lines, expected);
}

#[test]
fn private_document_marks_missing_fields() {
    let mut task = detail("t", Some(""));
    task.title = None;
    task.checklist = Some(Vec::new());
    let (_, lines) = private_task_document(&task);
    assert_eq!(lines[0], "Title: <unreadable title>");
    assert_eq!(lines[3], "Project: <unreadable project>");
    assert_eq!(lines[4], "Status: open");
    assert_eq!(lines[5], "Priority: none");
    assert_eq!(lines[6], "Due: none");
    assert_eq!(lines[9], "<none>");
    assert_eq!(lines.len(), 10);
}
