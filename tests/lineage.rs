use cargo_git::lineage::{decode_lineage, encode_lineage, recover_lineage, LineageFacts, LINEAGE_SCAN_DEPTH};

fn facts(forked_at: Option<&str>, parent_branch: Option<&str>) -> LineageFacts {
    LineageFacts {
        forked_at: forked_at.map(|s| s.to_string()),
        parent_branch: parent_branch.map(|s| s.to_string()),
    }
}

#[test]
fn recover_takes_each_fact_from_nearest_message_that_has_it() {
    let messages = vec![
        "WIP\n\nsome work".to_string(),
        "Update\n\nParent branch: main\n".to_string(),
        "Initial commit\n\nForked at: abc123\n".to_string(),
    ];
    assert_eq!(recover_lineage(&messages), facts(Some("abc123"), Some("main")));
}

#[test]
fn recover_keeps_first_value_found() {
    let messages = vec![
        "Forked at: new\n".to_string(),
        "Forked at: old\nParent branch: dev\n".to_string(),
    ];
    assert_eq!(recover_lineage(&messages), facts(Some("new"), Some("dev")));
}

#[test]
fn recover_stops_at_scan_depth() {
    let mut messages: Vec<String> = (0..LINEAGE_SCAN_DEPTH).map(|i| format!("commit {}", i)).collect();
    messages.push("Forked at: deep\nParent branch: far\n".to_string());
    assert_eq!(recover_lineage(&messages), facts(None, None));
    messages.remove(0);
    assert_eq!(recover_lineage(&messages), facts(Some("deep"), Some("far")));
}

#[test]
fn recover_of_no_messages_is_empty() {
    assert_eq!(recover_lineage(&Vec::new()), facts(None, None));
}

#[test]
fn decode_tolerates_white_space() {
    let m = "Subject\n\n   Forked at:    abc123   trailing\n\tParent branch:\tfeature/x\n";
    assert_eq!(decode_lineage(m), facts(Some("abc123"), Some("feature/x")));
}

#[test]
fn decode_needs_label_at_line_start() {
    assert_eq!(decode_lineage("see Forked at: abc\n"), facts(None, None));
    assert_eq!(decode_lineage("forked at: abc\n"), facts(None, None));
}

#[test]
fn decode_value_may_follow_on_next_line() {
    assert_eq!(decode_lineage("Forked at:\n   abc"), facts(Some("abc"), None));
}

#[test]
fn decode_skips_label_without_value() {
    assert_eq!(decode_lineage("Parent branch:   "), facts(None, None));
    assert_eq!(
        decode_lineage("Parent branch: first\nParent branch: second\n"),
        facts(None, Some("first"))
    );
}

#[test]
fn encode_writes_one_line_per_fact() {
    assert_eq!(
        encode_lineage(&facts(Some("abc123"), Some("main"))),
        "Forked at: abc123\nParent branch: main\n"
    );
    assert_eq!(encode_lineage(&facts(None, Some("main"))), "Parent branch: main\n");
    assert_eq!(encode_lineage(&facts(None, None)), "");
}

#[test]
fn encode_then_decode_gives_facts_back() {
    let f = facts(Some("0123abcd"), Some("origin/main"));
    assert_eq!(decode_lineage(&encode_lineage(&f)), f);
}
