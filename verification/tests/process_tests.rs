use sealtask::process::{owned_processes, parse_process_parent_map};
use std::collections::{HashMap, HashSet};

#[test]
fn unix_process_parser_excludes_its_scanner_helper() {
    let processes =
        parse_process_parent_map(b"10 1\n20 10\n30 10\n", 20).expect("parse process fixture");

    assert_eq!(processes.get(&10), Some(&1));
    assert!(!processes.contains_key(&20));
    assert_eq!(processes.get(&30), Some(&10));
}

#[test]
fn process_parser_skips_malformed_lines_and_keeps_the_last_parent() {
    let output = b"  7\t3 extra\r\nnot a pid\n8\n+9 -2\n7 4\n99999999999 1\n";
    let processes = parse_process_parent_map(output, 0).expect("parse process list");
    assert_eq!(processes.len(), 2);
    assert_eq!(processes.get(&7), Some(&4));
    assert_eq!(processes.get(&9), Some(&-2));
    assert!(!processes.contains_key(&8));
}

#[test]
fn process_parser_rejects_non_utf8_output() {
    let error = parse_process_parent_map(&[0x31, 0x20, 0xff, 0x0a], 0).expect_err("invalid UTF-8");
    assert_eq!(error.code, "unexpected");
    assert_eq!(error.message, "Unix process inspection returned non-UTF-8 data");
}

#[test]
fn owned_processes_follow_new_children_and_their_descendants() {
    let owner = 100;
    let root = 200;
    let processes: HashMap<i32, i32> = [
        (root, owner),
        (201, root),
        (202, 201),
        (300, owner),
        (301, 300),
        (400, owner),
        (401, 400),
        (500, 1),
        (501, 500),
    ]
    .into_iter()
    .collect();
    let baseline: HashSet<i32> = [400].into_iter().collect();

    let owned = owned_processes(&processes, root, owner, &baseline);

    let expected: HashSet<i32> = [root, 201, 202, 300, 301].into_iter().collect();
    assert_eq!(owned, expected);
}

#[test]
fn reparented_root_is_not_owned_but_its_recorded_children_are_unrelated() {
    let processes: HashMap<i32, i32> = [(200, 1), (201, 200)].into_iter().collect();
    let owned = owned_processes(&processes, 200, 100, &HashSet::new());
    assert!(owned.is_empty());
}
