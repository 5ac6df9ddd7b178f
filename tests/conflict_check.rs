use cargo_git::conflict_check::{CheckStep, ConflictCheck};
use cargo_git::policy::IgnorePolicy;

fn strings(ps: &[&str]) -> Vec<String> {
    ps.iter().map(|s| s.to_string()).collect()
}

fn empty_policy() -> IgnorePolicy {
    match IgnorePolicy::from_patterns(&Vec::new()) {
        Ok(p) => p,
        Err(_) => panic!("empty policy"),
    }
}

#[test]
fn empty_range_is_up_to_date() {
    let (_, step) = ConflictCheck::start(Vec::new());
    assert_eq!(step, CheckStep::UpToDate);
}

#[test]
fn newest_revision_merging_means_no_conflict() {
    let p = empty_policy();
    let (mut c, step) = ConflictCheck::start(strings(&["c1", "c2", "c3"]));
    assert_eq!(step, CheckStep::Try("c3".to_string()));
    assert_eq!(
        c.judged(&strings(&["Cargo.lock"]), &p),
        CheckStep::Finished { conflict_on: None, lockfile_conflict: true }
    );
    assert!(!c.awaits_verdict());
}

#[test]
fn walk_reports_oldest_of_the_failing_newest_revisions() {
    let p = empty_policy();
    let (mut c, _) = ConflictCheck::start(strings(&["c1", "c2", "c3"]));
    assert_eq!(c.judged(&strings(&["a.rs"]), &p), CheckStep::Try("c2".to_string()));
    assert_eq!(
        c.judged(&Vec::new(), &p),
        CheckStep::Finished { conflict_on: Some("c3".to_string()), lockfile_conflict: false }
    );
}

#[test]
fn all_failing_reports_the_oldest() {
    let p = empty_policy();
    let (mut c, _) = ConflictCheck::start(strings(&["c1", "c2"]));
    assert_eq!(c.judged(&strings(&["a.rs"]), &p), CheckStep::Try("c1".to_string()));
    assert_eq!(
        c.judged(&strings(&["b.rs"]), &p),
        CheckStep::Finished { conflict_on: Some("c1".to_string()), lockfile_conflict: false }
    );
}
