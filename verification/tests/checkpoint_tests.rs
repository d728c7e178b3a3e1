use sealtask::attachment::PathComponent;
use sealtask::checkpoint::{
    absolute_normalized_path, checkpoint_parent, ensure_durable_checkpoint_platform, filesystem_root, initial_checkpoint, is_symlink_loop_error,
    journal_record_lines, lock_name, normalize_path, parent_component_error, parse_checkpoint_journal,
    reject_input_checkpoint_conflict, relative_open_error, validate_change_commitment, validate_checkpoint,
    validate_effective_owner_ids, validate_entry, validate_hash, AppendPlan, CheckpointEntry, CheckpointFile,
    CheckpointOperations, CheckpointRecord, CheckpointStore, CheckpointWriter, IoErrorKind, IoFailure,
    OperationKind, ResumeState, MAX_CHECKPOINT_BYTES,
};
use sealtask::checkpoint::{failed_record, started_record, succeeded_record, StartedMetadata};
use sealtask::error::CliError;
use sealtask::input::operation_key;

fn hash(c: char) -> String {
    std::iter::repeat_n(c, 64).collect()
}

fn commitment() -> String {
    std::iter::repeat_n('A', 43).collect()
}

fn started_create(project_id: u128) -> CheckpointEntry {
    CheckpointEntry::Started {
        kind: OperationKind::TaskCreate,
        project_id,
        task_id: None,
        expected_updated_at: None,
        change_commitment: None,
    }
}

fn succeeded(project_id: u128, task_id: u128) -> CheckpointEntry {
    CheckpointEntry::Succeeded { kind: OperationKind::TaskCreate, project_id, task_id, updated_at: 1_700_000_000_000_000_000 }
}

fn normal(name: &str) -> PathComponent {
    PathComponent::Normal(name.to_string())
}

#[test]
fn rejects_an_owner_other_than_the_effective_user() {
    let error = validate_effective_owner_ids(1000, 1001, "checkpoint").expect_err("wrong owner must be rejected");
    assert_eq!(error.code(), "checkpoint_conflict");
    assert!(error.to_string().contains("owned by the current effective user"));
    validate_effective_owner_ids(1000, 1000, "checkpoint").expect("matching owner must be accepted");
}

#[test]
fn hashes_and_commitments_have_exact_shapes() {
    assert!(validate_hash(&hash('a'), "key").is_ok());
    assert!(validate_hash(&hash('0'), "key").is_ok());
    let error = validate_hash(&hash('A'), "operation checkpoint key").expect_err("uppercase");
    assert_eq!(error.to_string(), "operation checkpoint key is invalid");
    assert_eq!(error.exit_code(), 4);
    assert!(validate_hash(&hash('a')[..63], "key").is_err());
    assert!(validate_change_commitment(&commitment()).is_ok());
    assert!(validate_change_commitment("A+/=").is_err());
    let mut padded = commitment();
    padded.pop();
    padded.push('=');
    assert!(validate_change_commitment(&padded).is_err());
}

#[test]
fn entries_must_name_consistent_targets() {
    assert!(validate_entry(&started_create(1)).is_ok());
    assert!(validate_entry(&succeeded(1, 2)).is_ok());
    let nil = validate_entry(&started_create(0)).expect_err("nil project");
    assert_eq!(nil.to_string(), "checkpoint contains an invalid canonical entity ID");
    let shape = validate_entry(&CheckpointEntry::Failed { kind: OperationKind::TaskUpdate, project_id: 1, task_id: None })
        .expect_err("update without task");
    assert_eq!(shape.to_string(), "checkpoint operation kind does not match its canonical task target");
    let partial = validate_entry(&CheckpointEntry::Started {
        kind: OperationKind::TaskUpdate,
        project_id: 1,
        task_id: Some(2),
        expected_updated_at: Some(5),
        change_commitment: None,
    })
    .expect_err("partial started metadata");
    assert_eq!(partial.to_string(), "checkpoint started metadata is incomplete or inconsistent");
    let bad_commitment = validate_entry(&CheckpointEntry::Started {
        kind: OperationKind::TaskUpdate,
        project_id: 1,
        task_id: Some(2),
        expected_updated_at: Some(5),
        change_commitment: Some("short".to_string()),
    })
    .expect_err("bad commitment");
    assert_eq!(bad_commitment.to_string(), "checkpoint change commitment is invalid");
}

#[test]
fn recorded_entries_are_resumed_exactly() {
    let key_a = operation_key("first");
    let key_b = operation_key("second");
    let mut operations = CheckpointOperations::new();
    operations.insert(key_a.clone(), started_create(7));
    operations.insert(key_b.clone(), started_create(8));
    operations.insert(key_a.clone(), succeeded(7, 9));
    assert_eq!(operations.len(), 2);
    let store = CheckpointStore {
        checkpoint: CheckpointFile { schema_version: 1, input_sha256: hash('c'), operations },
    };
    match store.resume_state(&key_a).expect("valid key") {
        ResumeState::Succeeded { project_id, task_id, .. } => {
            assert_eq!(project_id, 7);
            assert_eq!(task_id, 9);
        }
        _ => panic!("the latest record wins"),
    }
    match store.resume_state(&key_b).expect("valid key") {
        ResumeState::Started(metadata) => assert_eq!(metadata.project_id, 8),
        _ => panic!("started record"),
    }
    assert!(matches!(store.resume_state(&hash('d')).expect("valid key"), ResumeState::Absent));
    assert!(store.resume_state("not-a-key").is_err());
    assert!(store.validate_operation_keys(&vec![key_a.clone(), key_b.clone()]).is_ok());
    let extra = store.validate_operation_keys(&vec![key_a]).expect_err("unknown key");
    assert_eq!(extra.code(), "checkpoint_conflict");
    assert!(validate_checkpoint(&store.checkpoint, &hash('c')).is_ok());
    assert_eq!(
        validate_checkpoint(&store.checkpoint, &hash('e')).expect_err("other input").to_string(),
        "checkpoint belongs to different canonical batch input"
    );
}

#[test]
fn future_schema_versions_are_refused() {
    let checkpoint = CheckpointFile { schema_version: 2, input_sha256: hash('c'), operations: CheckpointOperations::new() };
    let error = validate_checkpoint(&checkpoint, &hash('c')).expect_err("future schema");
    assert_eq!(error.to_string(), "checkpoint schemaVersion 2 is not supported by this CLI");
}

#[test]
fn opening_requires_resume_to_match_what_exists() {
    let fresh = initial_checkpoint(&hash('c'), false, None).expect("fresh checkpoint");
    assert!(!fresh.1);
    assert_eq!(fresh.0.operations.len(), 0);
    let missing = initial_checkpoint(&hash('c'), true, None).expect_err("nothing to resume");
    assert_eq!(missing.to_string(), "--resume requires an existing checkpoint");
    let existing = CheckpointFile { schema_version: 1, input_sha256: hash('c'), operations: CheckpointOperations::new() };
    let clobber = initial_checkpoint(&hash('c'), false, Some(existing)).expect_err("existing checkpoint");
    assert!(clobber.to_string().starts_with("checkpoint already exists"));
    let existing = CheckpointFile { schema_version: 1, input_sha256: hash('c'), operations: CheckpointOperations::new() };
    let resumed = initial_checkpoint(&hash('c'), true, Some(existing)).expect("resume");
    assert!(resumed.1);
}

#[test]
fn journal_compacts_before_crossing_its_size_bound_and_fails_closed() {
    let checkpoint = CheckpointFile { schema_version: 1, input_sha256: hash('c'), operations: CheckpointOperations::new() };
    let mut writer = CheckpointWriter::new(checkpoint, MAX_CHECKPOINT_BYTES - 10);
    assert!(matches!(writer.begin_append(Ok(10)), Ok(AppendPlan::Append { next_len }) if next_len == MAX_CHECKPOINT_BYTES));
    assert!(matches!(writer.begin_append(Ok(11)), Ok(AppendPlan::Compact)));
    let key = operation_key("one");
    writer.finish_append(key.clone(), started_create(3), AppendPlan::Compact, Ok(200)).expect("compacted");
    assert_eq!(writer.bytes_written, 200);
    assert_eq!(writer.checkpoint.operations.len(), 1);
    let failure = writer
        .finish_append(operation_key("two"), started_create(4), AppendPlan::Append { next_len: 300 }, Err(CliError::checkpoint_io("disk full".to_string())))
        .expect_err("write failed");
    assert_eq!(failure.code(), "checkpoint_io");
    assert!(writer.failed);
    assert_eq!(writer.checkpoint.operations.len(), 1);
    let refused = writer.begin_append(Ok(1)).err().expect("failed journal refuses appends");
    assert_eq!(refused.to_string(), "checkpoint writer is unavailable after an earlier durability failure");
    assert!(writer.failed);
}

#[test]
fn resume_discards_only_an_incomplete_unacknowledged_tail() {
    let bytes = b"header\nrecord-1\nrecord-2 partial".to_vec();
    let lines = journal_record_lines(&bytes).expect("complete records");
    assert_eq!(lines, vec![b"header".to_vec(), b"record-1".to_vec()]);
    assert!(journal_record_lines(&b"no newline".to_vec()).is_err());
    let lines = journal_record_lines(&b"header\n\nrecord\n".to_vec()).expect("records");
    assert_eq!(lines, vec![b"header".to_vec(), Vec::new(), b"record".to_vec()]);
}

#[test]
fn journals_replay_in_order_and_reject_corruption() {
    let key = operation_key("op");
    let lines = vec![b"h".to_vec(), b"a".to_vec(), b"b".to_vec()];
    let records = vec![
        Some(CheckpointRecord::Header { schema_version: 1, input_sha256: hash('c') }),
        Some(CheckpointRecord::Operation { operation_key: key.clone(), entry: started_create(5) }),
        Some(CheckpointRecord::Operation { operation_key: key.clone(), entry: succeeded(5, 6) }),
    ];
    let checkpoint = parse_checkpoint_journal(&lines, &records).expect("journal");
    assert_eq!(checkpoint.operations.len(), 1);
    let store = CheckpointStore { checkpoint };
    assert!(matches!(store.resume_state(&key).expect("key"), ResumeState::Succeeded { task_id: 6, .. }));

    let empty = parse_checkpoint_journal(&vec![b"h".to_vec(), Vec::new()], &vec![records[0].as_ref().map(|_| CheckpointRecord::Header { schema_version: 1, input_sha256: hash('c') }), None])
        .err()
        .expect("empty record");
    assert_eq!(empty.to_string(), "checkpoint journal contains an empty record");
    let headless = parse_checkpoint_journal(&vec![b"a".to_vec()], &vec![Some(CheckpointRecord::Operation { operation_key: key, entry: started_create(5) })])
        .err()
        .expect("no header");
    assert_eq!(headless.to_string(), "checkpoint journal must begin with its header");
}

#[test]
fn rejects_parent_components_before_path_normalization() {
    let path = vec![PathComponent::RootDir, normal("tmp"), normal("symlink-that-must-not-be-erased"), PathComponent::ParentDir, normal("checkpoint.json")];
    let error = absolute_normalized_path(&path, Ok(vec![PathComponent::RootDir])).expect_err("parent component");
    assert_eq!(error.code(), "checkpoint_conflict");
    assert!(error.to_string().contains("must not contain `..`"));
}

#[test]
fn checkpoint_paths_resolve_against_the_working_directory() {
    let relative = vec![PathComponent::CurDir, normal("state"), normal("checkpoint.json")];
    let parent = checkpoint_parent(&relative).expect("names a file");
    assert_eq!(parent.len(), 2);
    let bare = checkpoint_parent(&vec![normal("checkpoint.json")]).expect("names a file");
    assert!(matches!(bare.as_slice(), [PathComponent::CurDir]));
    assert!(checkpoint_parent(&vec![PathComponent::RootDir]).is_err());
    let absolute = absolute_normalized_path(&parent, Ok(vec![PathComponent::RootDir, normal("home")])).expect("absolute");
    assert!(matches!(absolute.as_slice(), [PathComponent::RootDir, PathComponent::Normal(a), PathComponent::Normal(b)] if a == "home" && b == "state"));
    let failed = absolute_normalized_path(&parent, Err("gone".to_string())).expect_err("no working directory");
    assert_eq!(failed.to_string(), "failed to resolve current directory: gone");
    let normalized = normalize_path(&vec![PathComponent::RootDir, normal("a"), PathComponent::CurDir, normal("b"), PathComponent::ParentDir, normal("c")]);
    assert!(matches!(normalized.as_slice(), [PathComponent::RootDir, PathComponent::Normal(a), PathComponent::Normal(c)] if a == "a" && c == "c"));
    let root = filesystem_root(&vec![PathComponent::RootDir, normal("a")]).expect("root");
    assert!(matches!(root.as_slice(), [PathComponent::RootDir]));
    assert!(filesystem_root(&vec![normal("a")]).is_err());
    assert_eq!(lock_name(&b"checkpoint.json".to_vec()), b"checkpoint.json.lock".to_vec());
}

#[test]
fn open_failures_distinguish_symlinks_from_io_errors() {
    let not_dir = IoFailure { kind: IoErrorKind::NotADirectory, raw_os_error: None, description: "nd".to_string() };
    let conflict = relative_open_error("checkpoint", &not_dir, Some(40));
    assert_eq!(conflict.code(), "checkpoint_conflict");
    assert_eq!(conflict.to_string(), "checkpoint must be a regular file and must not be a symlink or reparse point");
    let looped = IoFailure { kind: IoErrorKind::Other, raw_os_error: Some(40), description: "loop".to_string() };
    assert!(is_symlink_loop_error(&looped, Some(40)));
    assert!(!is_symlink_loop_error(&looped, None));
    assert!(!is_symlink_loop_error(&looped, Some(62)));
    assert_eq!(relative_open_error("checkpoint", &looped, Some(40)).code(), "checkpoint_conflict");
    assert_eq!(relative_open_error("checkpoint", &looped, None).code(), "checkpoint_io");
    assert_eq!(parent_component_error("/a/b", &looped, Some(40)).code(), "checkpoint_conflict");
    let other = IoFailure { kind: IoErrorKind::Other, raw_os_error: Some(5), description: "I/O error".to_string() };
    assert!(!is_symlink_loop_error(&other, Some(40)));
    let io = parent_component_error("/a/b", &other, Some(40));
    assert_eq!(io.code(), "checkpoint_io");
    assert_eq!(io.to_string(), "failed to open checkpoint parent /a/b: I/O error");
}

#[test]
fn rejects_input_checkpoint_alias() {
    let alias = reject_input_checkpoint_conflict(&b"input.jsonl".to_vec(), Some((Ok(b"/x/input.jsonl".to_vec()), Ok(b"/x/input.jsonl".to_vec()))))
        .expect_err("alias");
    assert_eq!(alias.to_string(), "batch input and checkpoint must be different files");
    assert!(reject_input_checkpoint_conflict(&b"-".to_vec(), Some((Ok(b"/x/a".to_vec()), Ok(b"/x/a".to_vec())))).is_ok());
    assert!(reject_input_checkpoint_conflict(&b"a".to_vec(), None).is_ok());
    assert!(reject_input_checkpoint_conflict(&b"a".to_vec(), Some((Ok(b"/x/a".to_vec()), Ok(b"/x/b".to_vec())))).is_ok());
}

#[test]
fn records_are_checked_before_they_reach_the_journal() {
    let update = StartedMetadata {
        kind: OperationKind::TaskUpdate,
        project_id: 7,
        task_id: Some(9),
        expected_updated_at: Some(1_700_000_000_000_000_000),
        change_commitment: Some(commitment()),
    };
    match started_record(&hash('a'), &update).expect("valid started record") {
        CheckpointEntry::Started { kind, project_id, task_id, expected_updated_at, change_commitment } => {
            assert_eq!(kind, OperationKind::TaskUpdate);
            assert_eq!((project_id, task_id), (7, Some(9)));
            assert_eq!(expected_updated_at, Some(1_700_000_000_000_000_000));
            assert_eq!(change_commitment, Some(commitment()));
        }
        other => panic!("unexpected entry {other:?}"),
    }

    let error = started_record("not-a-key", &update).expect_err("invalid key");
    assert_eq!(error.code, "checkpoint_conflict");
    assert_eq!(error.message, "operation checkpoint key is invalid");

    let incomplete = StartedMetadata { change_commitment: None, ..update };
    let error = started_record(&hash('a'), &incomplete).expect_err("update without commitment");
    assert_eq!(error.message, "checkpoint started metadata is incomplete or inconsistent");

    let error = succeeded_record(&hash('b'), OperationKind::TaskCreate, 7, 0, 5).expect_err("nil task");
    assert_eq!(error.message, "checkpoint contains an invalid canonical entity ID");
    assert!(succeeded_record(&hash('b'), OperationKind::TaskCreate, 7, 8, 5).is_ok());

    let error = failed_record(&hash('c'), OperationKind::TaskCreate, 7, Some(8)).expect_err("create with task");
    assert_eq!(error.message, "checkpoint operation kind does not match its canonical task target");
    assert!(failed_record(&hash('c'), OperationKind::TaskUpdate, 7, Some(8)).is_ok());
}

#[test]
fn durable_checkpoints_are_refused_outside_linux_and_macos() {
    assert!(ensure_durable_checkpoint_platform("linux").is_ok());
    assert!(ensure_durable_checkpoint_platform("macos").is_ok());
    let error = ensure_durable_checkpoint_platform("windows").expect_err("windows");
    assert_eq!(error.code(), "checkpoint_conflict");
    assert_eq!(error.exit_code(), 4);
    assert_eq!(error.to_string(), "durable batch checkpoints require Linux or macOS; omit --checkpoint and --resume");
}

#[test]
fn operations_are_kept_in_key_order() {
    let mut operations = CheckpointOperations::new();
    operations.insert(hash('c'), started_create(3));
    operations.insert(hash('a'), started_create(1));
    operations.insert(hash('b'), started_create(2));
    operations.insert(hash('a'), started_create(4));
    assert_eq!(operations.len(), 3);
    assert_eq!(operations.key_at(0), &hash('a'));
    assert_eq!(operations.key_at(1), &hash('b'));
    assert_eq!(operations.key_at(2), &hash('c'));
    assert!(sealtask::checkpoint::key_less("ab", "b"));
    assert!(sealtask::checkpoint::key_less("a", "ab"));
    assert!(!sealtask::checkpoint::key_less("b", "b"));
    assert!(sealtask::checkpoint::key_less("Z", "a"));
}
