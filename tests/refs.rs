use cargo_git::commands::{may_delete_after_merge, may_delete_branch, names_remote_branch, push_args, split_remote_branch, without_lockfile};
use cargo_git::hash::hash_from_oid;

#[test]
fn remote_branch_splits_at_last_slash() {
    assert_eq!(split_remote_branch("origin/main"), (Some("origin".to_string()), "main".to_string()));
    assert_eq!(split_remote_branch("up/stream/feature"), (Some("up/stream".to_string()), "feature".to_string()));
    assert_eq!(split_remote_branch("main"), (None, "main".to_string()));
    assert_eq!(split_remote_branch(""), (None, "".to_string()));
}

#[test]
fn remote_branch_names_hold_a_slash() {
    assert!(names_remote_branch("origin/main"));
    assert!(!names_remote_branch("main"));
}

#[test]
fn master_and_remote_branches_are_kept_after_merge() {
    assert!(!may_delete_after_merge("master"));
    assert!(!may_delete_after_merge("origin/feature"));
    assert!(may_delete_after_merge("feature"));
}

#[test]
fn lockfiles_are_left_out_of_file_lists() {
    let files = vec!["src/lib.rs".to_string(), "Cargo.lock".to_string(), "sub/Cargo.lock".to_string(), "Cargo.toml".to_string()];
    assert_eq!(without_lockfile(&files), vec!["src/lib.rs".to_string(), "Cargo.toml".to_string()]);
    assert!(without_lockfile(&Vec::new()).is_empty());
}

#[test]
fn push_sets_upstream_only_when_missing() {
    let name = Some("feature".to_string());
    assert_eq!(push_args(&name, &None), vec!["--set-upstream".to_string(), "origin".to_string(), "feature".to_string()]);
    assert!(push_args(&name, &Some("origin/feature".to_string())).is_empty());
    assert!(push_args(&None, &None).is_empty());
}

#[test]
fn hash_is_lower_case_hex() {
    assert_eq!(hash_from_oid(&[0x00, 0x0f, 0xa5, 0xff]), "000fa5ff");
    assert_eq!(hash_from_oid(&[]), "");
    let bytes: Vec<u8> = (0u8..20).collect();
    assert_eq!(hash_from_oid(&bytes), "000102030405060708090a0b0c0d0e0f10111213");
}

#[test]
fn merge_message_names_both_branches() {
    assert_eq!(cargo_git::commands::merge_branch_message("feature", "main"), "Merge branch 'feature' into main");
}

#[test]
fn default_branch_is_not_deleted() {
    assert!(!may_delete_branch("origin/main", "origin/main"));
    assert!(!may_delete_branch("up/origin/main", "origin/main"));
    assert!(may_delete_branch("main", "origin/main"));
    assert!(may_delete_branch("feature", "origin/main"));
}
