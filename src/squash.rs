use vstd::prelude::*;
use crate::text::{chars_of, matches_at, occurs_at};

verus! {

/// A commit on the first-parent line of HEAD, as the compactor reads it.
#[derive(Debug, Clone, PartialEq, Eq)]
pub struct AncestorInfo {
    pub hash: String,
    pub message: String,
    pub first_parent: Option<String>,
}

/// The commit that replaces a run of merge commits: its two parents, its message, and the
/// commit whose tree it takes (HEAD before the squash).
#[derive(Debug, Clone, PartialEq, Eq)]
pub struct SquashPlan {
    pub tree_from: String,
    pub parent_0: String,
    pub parent_1: String,
    pub message: String,
}

/// The end of the first line of `m` (the index of its first newline, or the length).
pub open spec fn subject_end(m: Seq<char>, i: int) -> int
    decreases m.len() - i,
{
    if i < 0 || i >= m.len() || m[i] == '\n' {
        i
    } else {
        subject_end(m, i + 1)
    }
}

/// The first line of `m` reads `Merge commit <...> (no conflict)`, the subject that the
/// engine gives the merge commits it makes without conflict.
pub open spec fn is_clean_merge_message(m: Seq<char>) -> bool {
    let e = subject_end(m, 0);
    let p = "Merge commit "@;
    let s = " (no conflict)"@;
    &&& p.len() <= e && occurs_at(m, p, 0)
    &&& s.len() <= e && occurs_at(m, s, e - s.len())
}

pub open spec fn ancestor_messages(a: Seq<AncestorInfo>) -> Seq<Seq<char>> {
    a.map_values(|x: AncestorInfo| x.message@)
}

/// How many messages from `i` on, in a row, are clean merge messages.
pub open spec fn run_length(ms: Seq<Seq<char>>, i: int) -> int
    decreases ms.len() - i,
{
    if i < 0 || i >= ms.len() || !is_clean_merge_message(ms[i]) {
        0
    } else {
        1 + run_length(ms, i + 1)
    }
}

pub open spec fn squash_message(boundary: Seq<char>) -> Seq<char> {
    "Merge branch "@ + boundary
}

fn find_subject_end(m: &Vec<char>) -> (r: usize)
    ensures
        r as int == subject_end(m@, 0),
        r <= m@.len(),
{
    let mut i: usize = 0;
    while i < m.len() && m[i] != '\n'
        invariant
            i <= m@.len(),
            subject_end(m@, i as int) == subject_end(m@, 0),
        decreases m@.len() - i,
    {
        i = i + 1;
    }
    i
}

/// Whether `message` has the subject of a merge made without conflict.
pub fn is_clean_merge(message: &str) -> (r: bool)
    ensures
        r == is_clean_merge_message(message@),
{
    let m = chars_of(message);
    let e = find_subject_end(&m);
    let p = chars_of("Merge commit ");
    let s = chars_of(" (no conflict)");
    p.len() <= e && matches_at(&m, &p, 0) && s.len() <= e && matches_at(&m, &s, e - s.len())
}

/// Plans the squash of the run of clean merge commits at the top of HEAD's first-parent
/// line (`ancestors`, nearest first, HEAD itself first). A run of fewer than two commits
/// leaves nothing to compact; so does a run whose oldest commit has no parent. Otherwise the
/// new commit has HEAD's tree and the parents (first parent of the oldest run commit,
/// `boundary`).
pub fn plan_squash(ancestors: &Vec<AncestorInfo>, boundary: &str) -> (r: Option<SquashPlan>)
    ensures
        ({
            let ms = ancestor_messages(ancestors@);
            let n = run_length(ms, 0);
            &&& r is Some <==> n >= 2 && ancestors@[n - 1].first_parent is Some
            &&& r is Some ==> {
                &&& r->Some_0.tree_from@ == ancestors@[0].hash@
                &&& r->Some_0.parent_0@ == ancestors@[n - 1].first_parent->Some_0@
                &&& r->Some_0.parent_1@ == boundary@
                &&& r->Some_0.message@ == squash_message(boundary@)
            }
        }),
{
    let ghost ms = ancestor_messages(ancestors@);
    let mut n: usize = 0;
    while n < ancestors.len() && is_clean_merge(ancestors[n].message.as_str())
        invariant
            n <= ancestors@.len(),
            ms == ancestor_messages(ancestors@),
            run_length(ms, 0) == n + run_length(ms, n as int),
        decreases ancestors@.len() - n,
    {
        n = n + 1;
    }
    assert(run_length(ms, n as int) == 0);
    if n < 2 {
        return None;
    }
    match &ancestors[n - 1].first_parent {
        Some(parent) => {
            let mut message = String::from_str("Merge branch ");
            message.append(boundary);
            Some(
                SquashPlan {
                    tree_from: ancestors[0].hash.clone(),
                    parent_0: parent.clone(),
                    parent_1: boundary.to_string(),
                    message,
                },
            )
        },
        None => None,
    }
}

} // verus!
