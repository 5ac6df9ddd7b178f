use cargo_git::squash::{is_clean_merge, plan_squash, AncestorInfo, SquashPlan};

fn ancestor(hash: &str, message: &str, parent: Option<&str>) -> AncestorInfo {
    AncestorInfo {
        hash: hash.to_string(),
        message: message.to_string(),
        first_parent: parent.map(|p| p.to_string()),
    }
}

#[test]
fn run_of_one_is_not_compacted() {
    let a = vec![
        ancestor("m1", "Merge commit c1 (no conflict)\n\n", Some("base")),
        ancestor("base", "Work", Some("root")),
    ];
    assert_eq!(plan_squash(&a, "origin/main"), None);
}

#[test]
fn run_of_two_is_compacted_onto_first_parent_and_boundary() {
    let a = vec![
        ancestor("m2", "Merge commit c2 (no conflict)\n\nParent branch: main\n", Some("m1")),
        ancestor("m1", "Merge commit c1 (no conflict)\n\n", Some("base")),
        ancestor("base", "Work", Some("root")),
    ];
    assert_eq!(
        plan_squash(&a, "origin/main"),
        Some(SquashPlan {
            tree_from: "m2".to_string(),
            parent_0: "base".to_string(),
            parent_1: "origin/main".to_string(),
            message: "Merge branch origin/main".to_string(),
        })
    );
}

#[test]
fn conflict_merges_end_the_run() {
    let a = vec![
        ancestor("m2", "Merge commit c2 (no conflict)\n\n", Some("m1")),
        ancestor("m1", "Merge commit c1 (conflicts)\n\n", Some("base")),
        ancestor("base", "Work", None),
    ];
    assert_eq!(plan_squash(&a, "main"), None);
}

#[test]
fn empty_history_has_nothing_to_compact() {
    assert_eq!(plan_squash(&Vec::new(), "main"), None);
}

#[test]
fn run_reaching_a_root_commit_is_not_compacted() {
    let a = vec![
        ancestor("m2", "Merge commit c2 (no conflict)", Some("m1")),
        ancestor("m1", "Merge commit c1 (no conflict)", None),
    ];
    assert_eq!(plan_squash(&a, "main"), None);
}

#[test]
fn merge_subject_is_recognised_on_first_line_only() {
    assert!(is_clean_merge("Merge commit abc (no conflict)"));
    assert!(is_clean_merge("Merge commit abc (no conflict)\n\nbody"));
    assert!(!is_clean_merge("Merge commit abc\n (no conflict)"));
    assert!(!is_clean_merge("merge commit abc (no conflict)"));
    assert!(!is_clean_merge("Merge branch main"));
}
