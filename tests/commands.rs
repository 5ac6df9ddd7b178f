use cargo_git::commands::{check_target, commit_message, run, squash_target, Check, Squash, TryMerge, Update, UpdateError};
use cargo_git::engine::MergeOutcome;
use cargo_git::lineage::LineageFacts;

fn params(revision: Option<&str>, squash: bool) -> TryMerge {
    TryMerge { squash, no_merge: false, revision: revision.map(|s| s.to_string()), merge_args: Vec::new() }
}

#[test]
fn dirty_tree_stops_the_run() {
    assert_eq!(run(&params(None, false), "origin/main", false, true), Err(UpdateError::DirtyWorkingTree));
}

#[test]
fn default_branch_is_the_target_and_is_fetched() {
    let plan = run(&params(None, false), "origin/main", false, false).unwrap();
    assert_eq!(plan.target, "origin/main");
    assert!(plan.fetch_upstream);
    assert!(!plan.squash_on_noop);
}

#[test]
fn given_local_revision_is_not_fetched() {
    let plan = run(&params(Some("feature"), false), "origin/main", true, false).unwrap();
    assert_eq!(plan.target, "feature");
    assert!(!plan.fetch_upstream);
    assert!(plan.squash_on_noop);
    assert!(plan.compacts_after(&MergeOutcome::NothingToDo));
    assert!(!plan.compacts_after(&MergeOutcome::Blocked { first: "c".to_string(), applied: 0, remaining: 1, ignored_paths: Vec::new() }));
}

#[test]
fn update_is_a_run_without_compaction() {
    let u = Update { deps: false, no_merge: true, revision: None, merge_args: vec!["--ff".to_string()] };
    let t = u.to_try_merge();
    assert!(!t.squash);
    assert!(t.no_merge);
    assert_eq!(t.merge_args, vec!["--ff".to_string()]);
}

#[test]
fn check_target_falls_back_to_parent_then_origin_master() {
    let none = LineageFacts { forked_at: None, parent_branch: None };
    let main = LineageFacts { forked_at: None, parent_branch: Some("main".to_string()) };
    assert_eq!(check_target(&Check { revision: Some("x".to_string()) }, &main), "x");
    assert_eq!(check_target(&Check { revision: None }, &main), "main");
    assert_eq!(check_target(&Check { revision: None }, &none), "origin/master");
}

#[test]
fn squash_target_needs_revision_or_parent() {
    let none = LineageFacts { forked_at: Some("abc".to_string()), parent_branch: None };
    assert_eq!(squash_target(&Squash { revision: None }, &none), None);
    assert_eq!(squash_target(&Squash { revision: Some("r".to_string()) }, &none), Some("r".to_string()));
}

#[test]
fn commit_message_appends_lineage() {
    let l = LineageFacts { forked_at: Some("abc".to_string()), parent_branch: Some("main".to_string()) };
    assert_eq!(commit_message("WIP", &l), "WIP\n\nForked at: abc\nParent branch: main\n");
}

use cargo_git::report::{decimal, lockfile_warning, merged_message, outcome_lines};

#[test]
fn decimal_writes_digits() {
    assert_eq!(decimal(0), "0");
    assert_eq!(decimal(7), "7");
    assert_eq!(decimal(10), "10");
    assert_eq!(decimal(1203), "1203");
    assert_eq!(decimal(usize::MAX), usize::MAX.to_string());
}

#[test]
fn nothing_to_do_reports_up_to_date() {
    assert_eq!(outcome_lines(&MergeOutcome::NothingToDo, "main"), vec!["Your branch is already up-to-date.".to_string()]);
}

#[test]
fn blocked_run_reports_distance_and_revision() {
    let lines = outcome_lines(&MergeOutcome::Blocked { first: "c2".to_string(), applied: 1, remaining: 2, ignored_paths: Vec::new() }, "origin/main");
    assert_eq!(
        lines,
        vec![
            "Your current branch is still behind 'origin/main' by 2 commit(s).".to_string(),
            "First merge conflict detected on: c2".to_string(),
        ]
    );
}

#[test]
fn applied_run_lists_ignored_paths_and_warns_on_lockfile() {
    let outcome = MergeOutcome::Applied {
        head: "h".to_string(),
        applied: 2,
        ignored_paths: vec!["a.md".to_string(), "Cargo.lock".to_string()],
    };
    assert_eq!(
        outcome_lines(&outcome, "main"),
        vec![
            "WARNING: conflict with Cargo.lock detected. Run `cargo git update --deps` to fix it.".to_string(),
            "The following files had conflicts but have been ignored:".to_string(),
            "a.md".to_string(),
            "Cargo.lock".to_string(),
            "Nothing more to merge. Your branch is up-to-date.".to_string(),
        ]
    );
    let clean = MergeOutcome::Applied { head: "h".to_string(), applied: 1, ignored_paths: Vec::new() };
    assert_eq!(outcome_lines(&clean, "main"), vec!["Nothing more to merge. Your branch is up-to-date.".to_string()]);
}

#[test]
fn lockfile_warning_only_for_lockfile() {
    assert!(lockfile_warning(&vec!["a.md".to_string()]).is_none());
    assert!(lockfile_warning(&vec!["a.md".to_string(), "Cargo.lock".to_string()]).is_some());
}

#[test]
fn merged_line_names_revision() {
    assert_eq!(merged_message("abc"), "All the commits to abc have been merged successfully without conflict");
}

#[test]
fn blocked_run_lists_settled_paths_before_distance() {
    let outcome = MergeOutcome::Blocked {
        first: "c3".to_string(),
        applied: 2,
        remaining: 1,
        ignored_paths: vec!["Cargo.lock".to_string()],
    };
    assert_eq!(
        outcome_lines(&outcome, "main"),
        vec![
            "WARNING: conflict with Cargo.lock detected. Run `cargo git update --deps` to fix it.".to_string(),
            "The following files had conflicts but have been ignored:".to_string(),
            "Cargo.lock".to_string(),
            "Your current branch is still behind 'main' by 1 commit(s).".to_string(),
            "First merge conflict detected on: c3".to_string(),
        ]
    );
}
