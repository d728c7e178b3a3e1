use sealtask::checkpoint::validate_hash;
use sealtask::input::{canonical_input_sha256, BatchRead, BatchReadAction};
use sealtask::input::{
    operation_key, read_bounded_line, sensitive_fingerprint, validate_checklist, validate_idempotency_key,
    validate_operation_id, validate_priority, validate_update_input, validate_wire, BatchReader, BatchReading,
    EntitySelector, SensitiveString, WireChecklistItem, WireOperation, WirePatch, WireTaskCreateInput,
    WireTaskUpdateInput, MAX_INPUT_BYTES, MAX_LINE_BYTES, MAX_OPERATIONS,
};

fn selector(text: &str) -> Result<EntitySelector, String> {
    Ok(EntitySelector { exact_id: None, reference: text.to_string() })
}

fn create_wire(operation_id: &str, title: &str, key: Option<&str>) -> WireOperation {
    WireOperation::TaskCreate {
        schema_version: 1,
        operation_id: SensitiveString::new(operation_id.to_string()),
        project: SensitiveString::new("id:0197f52a-89f0-7b50-8000-000000000001".to_string()),
        input: WireTaskCreateInput {
            title: SensitiveString::new(title.to_string()),
            body: None,
            checklist: None,
            priority: None,
            due_at: None,
            start_at: None,
            section_id: None,
            idempotency_key: key.map(|k| SensitiveString::new(k.to_string())),
        },
    }
}

fn create_line(operation_id: &str) -> String {
    format!(
        r#"{{"schemaVersion":1,"operationId":"{operation_id}","type":"task.create","project":"id:0197f52a-89f0-7b50-8000-000000000001","input":{{"title":"Ship it"}}}}"#
    )
}

fn empty_update() -> WireTaskUpdateInput {
    WireTaskUpdateInput {
        title: None,
        body: WirePatch::Unchanged,
        checklist: WirePatch::Unchanged,
        priority: WirePatch::Unchanged,
        due_at: WirePatch::Unchanged,
        start_at: WirePatch::Unchanged,
        section_id: WirePatch::Unchanged,
    }
}

#[test]
fn rejects_oversized_line_before_deserializing() {
    let mut reader = BatchReader::new(vec![b'x'; MAX_LINE_BYTES + 1]);
    let mut reading = BatchReading::new();
    let error = reading.next_line(&mut reader).expect_err("oversized");
    assert!(error.to_string().contains("line 1 exceeds"));
}

#[test]
fn enforces_total_and_operation_count_bounds() {
    let mut one_byte = BatchReader::new(b"x".to_vec());
    let mut line = Vec::new();
    let total_error = read_bounded_line(&mut one_byte, &mut line, MAX_INPUT_BYTES, 1).expect_err("total limit");
    assert!(total_error.to_string().contains("input exceeds"));

    let mut input = String::new();
    for index in 0..=MAX_OPERATIONS {
        input.push_str(&create_line(&format!("op-{index}")));
        input.push('\n');
    }
    let mut reader = BatchReader::new(input.into_bytes());
    let mut reading = BatchReading::new();
    let mut index = 0usize;
    let operation_error = loop {
        match reading.next_line(&mut reader) {
            Ok(Some(_)) => {
                let wire = create_wire(&format!("op-{index}"), "Ship it", None);
                if let Err(error) = reading.accept(Ok((wire, selector("project"), None))) {
                    break error;
                }
                index += 1;
            }
            Ok(None) => panic!("the operation limit must stop reading"),
            Err(error) => break error,
        }
    };
    assert!(operation_error.to_string().contains("operation limit"));
}

#[test]
fn rejects_duplicate_explicit_idempotency_keys() {
    let mut reading = BatchReading::new();
    let mut reader = BatchReader::new(b"one\ntwo\n".to_vec());
    reading.next_line(&mut reader).expect("first line");
    reading.accept(Ok((create_wire("one", "Ship it", Some("shared-key")), selector("project"), None))).expect("first");
    reading.next_line(&mut reader).expect("second line");
    let error = reading
        .accept(Ok((create_wire("two", "Another", Some("shared-key")), selector("project"), None)))
        .err()
        .expect("duplicate idempotency key");
    assert!(error.to_string().contains("repeats an explicit"));
    assert!(!error.to_string().contains("shared-key"));
}

#[test]
fn duplicate_operation_ids_and_blank_lines_are_rejected() {
    let mut reading = BatchReading::new();
    let mut reader = BatchReader::new(b"a\r\nb\n \t\n".to_vec());
    assert_eq!(reading.next_line(&mut reader).expect("line").expect("some"), b"a".to_vec());
    reading.accept(Ok((create_wire("same", "Ship it", None), selector("project"), None))).expect("first");
    reading.next_line(&mut reader).expect("line");
    let error = reading.accept(Ok((create_wire("same", "Ship it", None), selector("project"), None))).err().expect("duplicate");
    assert_eq!(error.to_string(), "batch input line 2 repeats an earlier operationId");
    let blank = reading.next_line(&mut reader).expect_err("blank line");
    assert_eq!(blank.to_string(), "batch input line 3 is empty");
    let decode = reading.accept(Err(17)).err().expect("decode failure");
    assert_eq!(decode.to_string(), "batch input line 3 is not a valid strict JSONL v1 operation (column 17)");
}

#[test]
fn rejects_invalid_operation_id_and_noop_update() {
    let wire = create_wire("contains space", "Ship it", None);
    let error = validate_wire(&wire, 1, selector("project"), None).err().expect("invalid id");
    assert!(error.to_string().contains("operationId"));
    let noop = WireOperation::TaskUpdate {
        schema_version: 1,
        operation_id: SensitiveString::new("noop".to_string()),
        project: SensitiveString::new("project".to_string()),
        task: SensitiveString::new("task".to_string()),
        input: empty_update(),
    };
    let error = validate_wire(&noop, 1, selector("project"), Some(selector("task"))).err().expect("no-op");
    assert!(error.to_string().contains("at least one field"));
    let nil = validate_wire(&create_wire("ok", "Ship it", None), 4, Ok(EntitySelector { exact_id: Some(0), reference: String::new() }), None)
        .err()
        .expect("nil selector");
    assert_eq!(nil.to_string(), "batch input line 4 project selector must not be a nil UUID");
    let future = WireOperation::TaskCreate {
        schema_version: 2,
        operation_id: SensitiveString::new("x".to_string()),
        project: SensitiveString::new("p".to_string()),
        input: WireTaskCreateInput {
            title: SensitiveString::new("t".to_string()),
            body: None,
            checklist: None,
            priority: None,
            due_at: None,
            start_at: None,
            section_id: None,
            idempotency_key: None,
        },
    };
    let error = validate_wire(&future, 1, selector("p"), None).err().expect("schema");
    assert!(error.to_string().contains("unsupported schemaVersion 2"));
}

#[test]
fn field_validators_match_the_schema() {
    assert!(validate_operation_id("release-1:a_b.c", 1).is_ok());
    assert!(validate_operation_id("", 1).is_err());
    assert!(validate_operation_id(&"a".repeat(129), 1).is_err());
    assert!(validate_idempotency_key(&"k".repeat(128), 1).is_ok());
    for priority in [1i8, 3, 5, 8] {
        assert!(validate_priority(Some(priority), 1).is_ok());
    }
    assert_eq!(validate_priority(Some(2), 7).expect_err("priority").to_string(), "batch input line 7 priority must be one of 1, 3, 5, or 8");
    assert!(validate_priority(None, 1).is_ok());
    let mut update = empty_update();
    update.title = Some(SensitiveString::new("   ".to_string()));
    assert_eq!(validate_update_input(&update, 2).expect_err("blank title").to_string(), "batch input line 2 task.update title cannot be empty");
}

#[test]
fn checklists_need_distinct_uuids_and_bounded_titles() {
    let item = |id: &str, title: &str| WireChecklistItem {
        id: SensitiveString::new(id.to_string()),
        title: SensitiveString::new(title.to_string()),
        is_done: false,
        completed_at: None,
        assignee_user_ids: None,
    };
    let first = "0197f52a-89f0-7b50-8000-000000000002";
    assert!(validate_checklist(&vec![item(first, " ok ")], 1).is_ok());
    let error = validate_checklist(&vec![item(first, "a"), item(first, "b")], 3).expect_err("duplicate");
    assert_eq!(error.to_string(), "batch input line 3 checklist[1].id is duplicated");
    let error = validate_checklist(&vec![item("nope", "a")], 3).expect_err("not a UUID");
    assert_eq!(error.to_string(), "batch input line 3 checklist[0].id must be a UUID");
    let error = validate_checklist(&vec![item(first, "  ")], 3).expect_err("blank title");
    assert_eq!(error.to_string(), "batch input line 3 checklist[0].title must contain 1 to 1024 characters");
    let mut assigned = item(first, "a");
    assigned.assignee_user_ids = Some(vec![SensitiveString::new(first.to_string()), SensitiveString::new(first.to_string())]);
    let error = validate_checklist(&vec![assigned], 3).expect_err("duplicate assignee");
    assert_eq!(error.to_string(), "batch input line 3 checklist[0].assignee_user_ids[1] is duplicated");
}

#[test]
fn operation_keys_are_domain_separated_digests() {
    let key = operation_key("release-1");
    assert_eq!(key.len(), 64);
    assert!(validate_hash(&key, "operation checkpoint key").is_ok());
    assert_ne!(key, operation_key("release-2"));
    assert_eq!(key, operation_key("release-1"));
    assert_eq!(sensitive_fingerprint(b"", ""), "e3b0c44298fc1c149afbf4c8996fb92427ae41e4649b934ca495991b7852b855");
    assert_eq!(sensitive_fingerprint(b"ab", "c"), "ba7816bf8f01cfea414140de5dae2223b00361a396177a9cb410ff61f20015ad");
}

#[test]
fn sensitive_strings_are_wiped() {
    let mut secret = SensitiveString::new("hunter2".to_string());
    assert_eq!(secret.as_str(), "hunter2");
    secret.zeroize();
    assert_eq!(secret.as_str(), "");
    assert_eq!(SensitiveString::new("x".to_string()).into_inner(), "x");
}

#[test]
fn a_late_invalid_record_rejects_the_whole_batch() {
    let mut read = BatchRead::new(b"first\nnot-json\nthird\n".to_vec());
    let line = match read.next() {
        BatchReadAction::Decode(line) => line,
        _ => panic!("expected a line to decode"),
    };
    assert_eq!(line, b"first".to_vec());
    let action = read.decoded(Ok((create_wire("first", "Ship it", None), selector("project"), None)));
    assert!(matches!(action, BatchReadAction::Canonicalize(..)));
    let action = read.canonicalized(Ok(b"{}".to_vec()));
    assert!(matches!(action, BatchReadAction::Decode(ref l) if l == b"not-json"));
    let error = match read.decoded(Err(1)) {
        BatchReadAction::Reject(error) => error,
        _ => panic!("expected a rejection"),
    };
    assert!(error.to_string().contains("line 2"));
    // Nothing after a rejection is read or accepted.
    assert!(matches!(read.next(), BatchReadAction::Stopped));
    assert!(matches!(read.canonicalized(Ok(b"{}".to_vec())), BatchReadAction::Stopped));
}

#[test]
fn a_fully_accepted_batch_completes_with_its_canonical_digest() {
    let mut read = BatchRead::new(b"one\n".to_vec());
    assert!(matches!(read.next(), BatchReadAction::Decode(_)));
    assert!(matches!(
        read.decoded(Ok((create_wire("one", "Ship it", None), selector("project"), None))),
        BatchReadAction::Canonicalize(..)
    ));
    let digest = match read.canonicalized(Ok(b"record".to_vec())) {
        BatchReadAction::Complete(digest) => digest,
        _ => panic!("expected completion"),
    };
    assert_eq!(digest, canonical_input_sha256(&vec![b"record".to_vec()]));
    assert!(matches!(read.next(), BatchReadAction::Stopped));

    let mut empty = BatchRead::new(Vec::new());
    match empty.next() {
        BatchReadAction::Reject(error) => {
            assert_eq!(error.to_string(), "batch input must contain at least one JSONL operation")
        }
        _ => panic!("expected a rejection"),
    }
}
