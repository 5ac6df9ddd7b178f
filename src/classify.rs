use vstd::prelude::*;
use crate::policy::IgnorePolicy;
use crate::text::chars_of;

verus! {

/// The dependency lockfile: its conflicts never block, and it keeps the current side.
pub open spec fn lockfile_path() -> Seq<char> {
    seq!['C', 'a', 'r', 'g', 'o', '.', 'l', 'o', 'c', 'k']
}

/// Which side of a merge a conflicting path takes its content from.
#[derive(PartialEq, Eq, Structural, Clone, Copy, Debug)]
pub enum Side {
    Ours,
    Theirs,
}

/// How one conflicting path is settled.
#[derive(Debug, Clone, PartialEq, Eq)]
pub struct Resolution {
    pub path: String,
    pub side: Side,
}

/// The verdict on a trial merge.
#[derive(Debug, Clone, PartialEq, Eq)]
pub enum Classification {
    /// No path conflicts.
    Clean,
    /// Every conflicting path may be settled automatically, as listed (one per path, in order).
    Ignorable(Vec<Resolution>),
    /// The first conflicting path that may not be settled automatically.
    RealConflict(String),
}

/// A conflict on `path` does not block: the path is the lockfile or the policy matches it.
pub open spec fn ignorable(policy: IgnorePolicy, path: Seq<char>) -> bool {
    path == lockfile_path() || policy.ignores(path)
}

/// The side an ignorable conflict on `path` takes: the lockfile keeps ours, all else theirs.
pub open spec fn side_for(path: Seq<char>) -> Side {
    if path == lockfile_path() {
        Side::Ours
    } else {
        Side::Theirs
    }
}

pub open spec fn path_views(paths: Seq<String>) -> Seq<Seq<char>> {
    paths.map_values(|p: String| p@)
}

/// The index of the first path that blocks, from `i` on; `paths.len()` if none does.
pub open spec fn first_blocking(policy: IgnorePolicy, paths: Seq<Seq<char>>, i: int) -> int
    decreases paths.len() - i,
{
    if i < 0 || i >= paths.len() {
        paths.len() as int
    } else if !ignorable(policy, paths[i]) {
        i
    } else {
        first_blocking(policy, paths, i + 1)
    }
}

impl Classification {
    /// Whether this verdict is the one `classify` owes for `conflicts` under `policy`.
    pub open spec fn describes(self, policy: IgnorePolicy, conflicts: Seq<Seq<char>>) -> bool {
        let k = first_blocking(policy, conflicts, 0);
        if conflicts.len() == 0 {
            self is Clean
        } else if k < conflicts.len() {
            self is RealConflict && self->RealConflict_0@ == conflicts[k]
        } else {
            self is Ignorable && self->Ignorable_0@.len() == conflicts.len() && forall|i: int|
                0 <= i < conflicts.len() ==> {
                    &&& (#[trigger] self->Ignorable_0@[i]).path@ == conflicts[i]
                    &&& self->Ignorable_0@[i].side == side_for(conflicts[i])
                }
        }
    }
}

fn lockfile_chars() -> (r: Vec<char>)
    ensures
        r@ == lockfile_path(),
{
    let r = chars_of("Cargo.lock");
    proof {
        reveal_strlit("Cargo.lock");
    }
    assert(r@ =~= lockfile_path());
    r
}

fn is_lockfile(path: &str, lockfile: &Vec<char>) -> (r: bool)
    requires
        lockfile@ == lockfile_path(),
    ensures
        r == (path@ == lockfile_path()),
{
    let p = chars_of(path);
    if p.len() != lockfile.len() {
        return false;
    }
    let mut i: usize = 0;
    while i < p.len()
        invariant
            p@.len() == lockfile@.len(),
            i <= p@.len(),
            p@ == path@,
            lockfile@ == lockfile_path(),
            p@.subrange(0, i as int) == lockfile@.subrange(0, i as int),
        decreases p@.len() - i,
    {
        if p[i] != lockfile[i] {
            assert(p@[i as int] != lockfile@[i as int]);
            return false;
        }
        assert(p@.subrange(0, i + 1) == p@.subrange(0, i as int).push(p@[i as int]));
        assert(lockfile@.subrange(0, i + 1) == lockfile@.subrange(0, i as int).push(
            lockfile@[i as int],
        ));
        i = i + 1;
    }
    assert(p@ == p@.subrange(0, p@.len() as int));
    assert(lockfile@ == lockfile@.subrange(0, lockfile@.len() as int));
    true
}

/// Classifies a trial merge by its conflicting paths: `Clean` when there are none,
/// `RealConflict` on the first path that is neither the lockfile nor matched by `policy`,
/// otherwise `Ignorable` with the side each path takes (theirs; ours for the lockfile).
pub fn classify(conflicts: &Vec<String>, policy: &IgnorePolicy) -> (r: Classification)
    ensures
        r.describes(*policy, path_views(conflicts@)),
{
    let ghost cs = path_views(conflicts@);
    let lockfile = lockfile_chars();
    let mut resolutions: Vec<Resolution> = Vec::new();
    let mut i: usize = 0;
    while i < conflicts.len()
        invariant
            i <= conflicts@.len(),
            cs == path_views(conflicts@),
            lockfile@ == lockfile_path(),
            first_blocking(*policy, cs, 0) == first_blocking(*policy, cs, i as int),
            resolutions@.len() == i,
            forall|j: int|
                0 <= j < i ==> {
                    &&& (#[trigger] resolutions@[j]).path@ == cs[j]
                    &&& resolutions@[j].side == side_for(cs[j])
                },
        decreases conflicts@.len() - i,
    {
        let path = conflicts[i].as_str();
        let lock = is_lockfile(path, &lockfile);
        if !lock && !policy.is_ignored(path) {
            return Classification::RealConflict(path.to_string());
        }
        let side = if lock {
            Side::Ours
        } else {
            Side::Theirs
        };
        resolutions.push(Resolution { path: path.to_string(), side });
        i = i + 1;
    }
    if conflicts.len() == 0 {
        Classification::Clean
    } else {
        Classification::Ignorable(resolutions)
    }
}

} // verus!
