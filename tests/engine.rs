use cargo_git::classify::{Resolution, Side};
use cargo_git::engine::{Action, Engine, MergeOutcome, Phase};
use cargo_git::lineage::LineageFacts;
use cargo_git::policy::IgnorePolicy;

fn policy(patterns: &[&str]) -> IgnorePolicy {
    let v: Vec<String> = patterns.iter().map(|s| s.to_string()).collect();
    match IgnorePolicy::from_patterns(&v) {
        Ok(p) => p,
        Err(_) => panic!("invalid patterns"),
    }
}

fn strings(ps: &[&str]) -> Vec<String> {
    ps.iter().map(|s| s.to_string()).collect()
}

fn no_lineage() -> LineageFacts {
    LineageFacts { forked_at: None, parent_branch: None }
}

/// Drives the engine: `conflicts[i]` are the conflicting paths of the i-th trial merge.
/// Returns the revisions committed and the final action.
fn drive(engine: &mut Engine, first: Action, conflicts: &[&[&str]], p: &IgnorePolicy) -> (Vec<String>, Action) {
    let mut committed = Vec::new();
    let mut action = first;
    let mut i = 0;
    loop {
        action = match action {
            Action::Classify { .. } => {
                let c = strings(conflicts[i]);
                i += 1;
                engine.classified(&c, p)
            }
            Action::Commit { revision, .. } => {
                committed.push(revision.clone());
                engine.committed(format!("m-{}", revision))
            }
            other => return (committed, other),
        };
    }
}

#[test]
fn empty_range_is_nothing_to_do() {
    let mut e = Engine::new(false);
    let a = e.scan("h0".to_string(), Vec::new(), no_lineage());
    assert_eq!(a, Action::Finish(MergeOutcome::NothingToDo));
    assert_eq!(e.phase(), Phase::Done);
}

#[test]
fn second_run_on_empty_range_is_nothing_to_do_again() {
    for _ in 0..2 {
        let mut e = Engine::new(true);
        let a = e.scan("h0".to_string(), Vec::new(), no_lineage());
        assert_eq!(a, Action::Finish(MergeOutcome::NothingToDo));
    }
}

#[test]
fn clean_range_is_applied_in_order() {
    let p = policy(&[]);
    let mut e = Engine::new(false);
    let a = e.scan("h0".to_string(), strings(&["c1", "c2", "c3"]), no_lineage());
    assert_eq!(a, Action::Classify { revision: "c1".to_string() });
    let (committed, last) = drive(&mut e, a, &[&[], &[], &[]], &p);
    assert_eq!(committed, strings(&["c1", "c2", "c3"]));
    assert_eq!(
        last,
        Action::Finish(MergeOutcome::Applied { head: "m-c3".to_string(), applied: 3, ignored_paths: Vec::new() })
    );
    assert_eq!(e.phase(), Phase::Done);
}

#[test]
fn real_conflict_on_second_revision_blocks_there() {
    let p = policy(&[]);
    let mut e = Engine::new(true);
    let a = e.scan("h0".to_string(), strings(&["c1", "c2", "c3"]), no_lineage());
    let (committed, last) = drive(&mut e, a, &[&[], &["src/lib.rs"]], &p);
    assert_eq!(committed, strings(&["c1"]));
    assert_eq!(
        last,
        Action::Finish(MergeOutcome::Blocked { first: "c2".to_string(), applied: 1, remaining: 2, ignored_paths: Vec::new() })
    );
    assert_eq!(e.phase(), Phase::Blocked);
}

#[test]
fn blocked_run_offers_merge_with_conflicts() {
    let p = policy(&[]);
    let mut e = Engine::new(false);
    let lineage = LineageFacts { forked_at: Some("abc".to_string()), parent_branch: Some("main".to_string()) };
    let a = e.scan("h0".to_string(), strings(&["c1", "c2"]), lineage);
    let (committed, last) = drive(&mut e, a, &[&["x.rs"]], &p);
    assert!(committed.is_empty());
    assert_eq!(
        last,
        Action::MergeWithConflicts {
            revision: "c1".to_string(),
            message: "Merge commit c1 (conflicts)\n\nForked at: abc\nParent branch: main\n".to_string(),
        }
    );
    assert_eq!(
        e.outcome(),
        Some(MergeOutcome::Blocked { first: "c1".to_string(), applied: 0, remaining: 2, ignored_paths: Vec::new() })
    );
}

#[test]
fn commit_action_carries_message_and_resolutions() {
    let p = policy(&["*.md"]);
    let mut e = Engine::new(false);
    let lineage = LineageFacts { forked_at: None, parent_branch: Some("main".to_string()) };
    e.scan("h0".to_string(), strings(&["c1"]), lineage);
    let a = e.classified(&strings(&["README.md", "Cargo.lock"]), &p);
    assert_eq!(
        a,
        Action::Commit {
            head: "h0".to_string(),
            revision: "c1".to_string(),
            message: "Merge commit c1 (no conflict)\n\nParent branch: main\n".to_string(),
            resolutions: vec![
                Resolution { path: "README.md".to_string(), side: Side::Theirs },
                Resolution { path: "Cargo.lock".to_string(), side: Side::Ours },
            ],
        }
    );
    assert!(e.awaits_commit());
}

#[test]
fn ignored_paths_are_gathered_once_each() {
    let p = policy(&["*.md"]);
    let mut e = Engine::new(false);
    let a = e.scan("h0".to_string(), strings(&["c1", "c2"]), no_lineage());
    let (_, last) = drive(&mut e, a, &[&["a.md", "Cargo.lock"], &["Cargo.lock", "b.md"]], &p);
    assert_eq!(
        last,
        Action::Finish(MergeOutcome::Applied {
            head: "m-c2".to_string(),
            applied: 2,
            ignored_paths: strings(&["a.md", "Cargo.lock", "b.md"]),
        })
    );
}

#[test]
fn engine_waits_for_the_right_event() {
    let mut e = Engine::new(false);
    assert_eq!(e.phase(), Phase::Scanning);
    assert!(!e.awaits_classification());
    e.scan("h0".to_string(), strings(&["c1"]), no_lineage());
    assert!(e.awaits_classification());
    assert!(!e.awaits_commit());
    assert_eq!(e.outcome(), None);
}

#[test]
fn blocked_run_keeps_settled_paths() {
    let p = policy(&["*.md"]);
    let mut e = Engine::new(true);
    let a = e.scan("h0".to_string(), strings(&["c1", "c2", "c3"]), no_lineage());
    let (committed, last) = drive(&mut e, a, &[&["a.md"], &["src/lib.rs"]], &p);
    assert_eq!(committed, strings(&["c1"]));
    assert_eq!(
        last,
        Action::Finish(MergeOutcome::Blocked {
            first: "c2".to_string(),
            applied: 1,
            remaining: 2,
            ignored_paths: strings(&["a.md"]),
        })
    );
    assert_eq!(e.ignored_paths(), strings(&["a.md"]));
}

#[test]
fn each_commit_names_the_head_it_merges_into() {
    let p = policy(&[]);
    let mut e = Engine::new(false);
    e.scan("h0".to_string(), strings(&["c1", "c2"]), no_lineage());
    match e.classified(&Vec::new(), &p) {
        Action::Commit { head, revision, .. } => {
            assert_eq!(head, "h0");
            assert_eq!(revision, "c1");
        }
        other => panic!("unexpected {:?}", other),
    }
    e.committed("m1".to_string());
    match e.classified(&Vec::new(), &p) {
        Action::Commit { head, revision, .. } => {
            assert_eq!(head, "m1");
            assert_eq!(revision, "c2");
        }
        other => panic!("unexpected {:?}", other),
    }
}
