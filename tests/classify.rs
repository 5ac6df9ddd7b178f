use cargo_git::classify::{classify, Classification, Resolution, Side};
use cargo_git::policy::{IgnorePolicy, PolicyError};

fn policy(patterns: &[&str]) -> IgnorePolicy {
    let v: Vec<String> = patterns.iter().map(|s| s.to_string()).collect();
    match IgnorePolicy::from_patterns(&v) {
        Ok(p) => p,
        Err(_) => panic!("invalid patterns"),
    }
}

fn paths(ps: &[&str]) -> Vec<String> {
    ps.iter().map(|s| s.to_string()).collect()
}

#[test]
fn no_conflict_is_clean() {
    assert_eq!(classify(&Vec::new(), &policy(&["*.md"])), Classification::Clean);
}

#[test]
fn ignored_paths_take_theirs_and_lockfile_takes_ours() {
    let r = classify(&paths(&["docs/README.md", "Cargo.lock"]), &policy(&["docs/*.md"]));
    assert_eq!(
        r,
        Classification::Ignorable(vec![
            Resolution { path: "docs/README.md".to_string(), side: Side::Theirs },
            Resolution { path: "Cargo.lock".to_string(), side: Side::Ours },
        ])
    );
}

#[test]
fn lockfile_never_blocks_even_without_patterns() {
    let r = classify(&paths(&["Cargo.lock"]), &policy(&[]));
    assert_eq!(
        r,
        Classification::Ignorable(vec![Resolution { path: "Cargo.lock".to_string(), side: Side::Ours }])
    );
}

#[test]
fn nested_lockfile_is_an_ordinary_path() {
    let r = classify(&paths(&["sub/Cargo.lock"]), &policy(&[]));
    assert_eq!(r, Classification::RealConflict("sub/Cargo.lock".to_string()));
}

#[test]
fn first_unmatched_path_is_a_real_conflict() {
    let r = classify(&paths(&["a.md", "src/lib.rs", "src/main.rs"]), &policy(&["*.md"]));
    assert_eq!(r, Classification::RealConflict("src/lib.rs".to_string()));
}

#[test]
fn patterns_match_the_full_path() {
    let p = policy(&["docs/*.txt", "**/generated.rs"]);
    assert!(p.is_ignored("docs/a.txt"));
    assert!(!p.is_ignored("a.txt"));
    assert!(p.is_ignored("src/deep/generated.rs"));
    assert!(!p.is_ignored("src/deep/handwritten.rs"));
}

#[test]
fn empty_policy_ignores_nothing() {
    assert!(!policy(&[]).is_ignored("anything"));
}

#[test]
fn invalid_pattern_is_refused() {
    let v = vec!["a[".to_string()];
    assert!(matches!(IgnorePolicy::from_patterns(&v), Err(PolicyError::InvalidPattern)));
}

#[test]
fn empty_pattern_list_builds_a_policy() {
    assert!(IgnorePolicy::from_patterns(&Vec::new()).is_ok());
}

#[test]
fn valid_patterns_build_a_policy() {
    assert!(IgnorePolicy::from_patterns(&vec!["*.md".to_string(), "docs/**".to_string()]).is_ok());
}
