use vstd::prelude::*;
use crate::engine::MergeOutcome;
use crate::classify::{lockfile_path, path_views};
use crate::lineage::{encode_lineage, encode_spec, LineageFacts, opt_view};
use crate::text::{chars_of, has_suffix, matches_at, occurs_at};

verus! {

/// Arguments handed through to a git command.
#[derive(Debug, Clone, PartialEq, Eq)]
pub struct Params {
    pub args: Vec<String>,
}

/// Arguments of `check`: the revision to check against (the parent branch by default).
#[derive(Debug, Clone, PartialEq, Eq)]
pub struct Check {
    pub revision: Option<String>,
}

/// Arguments of `commit`.
#[derive(Debug, Clone, PartialEq, Eq)]
pub struct Commit {
    pub message: String,
    pub args: Vec<String>,
}

/// Arguments of `delete`.
#[derive(Debug, Clone, PartialEq, Eq)]
pub struct Delete {
    pub branch_name: String,
}

/// Arguments of `fork`: the new branch and where it starts.
#[derive(Debug, Clone, PartialEq, Eq)]
pub struct Fork {
    pub branch_name: String,
    pub from: Option<String>,
}

/// Arguments of `merge`.
#[derive(Debug, Clone, PartialEq, Eq)]
pub struct Merge {
    pub branch_name: String,
}

/// Arguments of `squash`: the revision to move to (the parent branch by default).
#[derive(Debug, Clone, PartialEq, Eq)]
pub struct Squash {
    pub revision: Option<String>,
}

/// Arguments of `update`.
#[derive(Debug, Clone, PartialEq, Eq)]
pub struct Update {
    pub deps: bool,
    pub no_merge: bool,
    pub revision: Option<String>,
    pub merge_args: Vec<String>,
}

/// Arguments of `try-merge`.
#[derive(Debug, Clone, PartialEq, Eq)]
pub struct TryMerge {
    pub squash: bool,
    pub no_merge: bool,
    pub revision: Option<String>,
    pub merge_args: Vec<String>,
}

/// The sub-commands.
#[derive(Debug, Clone, PartialEq, Eq)]
pub enum Opts {
    Add(Params),
    Check(Check),
    Checkout(Params),
    Commit(Commit),
    Delete(Delete),
    Diff(Params),
    Fork(Fork),
    Merge(Merge),
    Push(Params),
    Squash(Squash),
    Update(Update),
}

/// Why an update run stops before it merges anything, or breaks off.
#[derive(Debug, Clone, PartialEq, Eq)]
pub enum UpdateError {
    /// A revision name does not resolve to a commit.
    UnresolvedReference(String),
    /// The working tree has changes that are not committed.
    DirtyWorkingTree,
    /// The object store failed; the cause, as the store gave it.
    Store(String),
}

/// What an update run works towards, decided before the range is read.
#[derive(Debug, Clone, PartialEq, Eq)]
pub struct UpdatePlan {
    /// The revision to merge up to.
    pub target: String,
    /// The target names a remote branch, to be fetched first.
    pub fetch_upstream: bool,
    /// Compact the merge commits at HEAD when there is nothing to merge.
    pub squash_on_noop: bool,
    /// Stop at the first conflict instead of starting a merge that shows it.
    pub no_merge: bool,
}

pub open spec fn choose_revision(given: Option<String>, default: Seq<char>) -> Seq<char> {
    match given {
        Some(r) => r@,
        None => default,
    }
}

/// Whether `s` names a branch of a remote (`<remote>/<branch>`): it holds a slash.
pub fn names_remote_branch(s: &str) -> (r: bool)
    ensures
        r == s@.contains('/'),
{
    let n = s.unicode_len();
    let mut i: usize = 0;
    while i < n
        invariant
            n == s@.len(),
            i <= n,
            forall|j: int| 0 <= j < i ==> s@[j] != '/',
        decreases n - i,
    {
        if s.get_char(i) == '/' {
            return true;
        }
        i = i + 1;
    }
    false
}

fn revision_or(given: &Option<String>, default: &str) -> (r: String)
    ensures
        r@ == choose_revision(*given, default@),
{
    match given {
        Some(r) => r.clone(),
        None => default.to_string(),
    }
}

impl Update {
    /// The same update as a `try-merge` run, without compaction.
    pub fn to_try_merge(self) -> (r: TryMerge)
        ensures
            !r.squash,
            r.no_merge == self.no_merge,
            r.revision == self.revision,
            r.merge_args == self.merge_args,
    {
        TryMerge {
            squash: false,
            no_merge: self.no_merge,
            revision: self.revision,
            merge_args: self.merge_args,
        }
    }
}

/// Starts an update run: a dirty working tree stops it; otherwise the target is the given
/// revision or the default branch, fetched first when it names a remote branch, and merge
/// commits are compacted on a run with nothing to merge when asked for here or by
/// configuration.
pub fn run(params: &TryMerge, default_branch: &str, squash_by_config: bool, dirty: bool) -> (r:
    Result<UpdatePlan, UpdateError>)
    ensures
        dirty <==> r is Err,
        r is Err ==> r->Err_0 is DirtyWorkingTree,
        r is Ok ==> {
            let p = r->Ok_0;
            &&& p.target@ == choose_revision(params.revision, default_branch@)
            &&& p.fetch_upstream == p.target@.contains('/')
            &&& p.squash_on_noop == (params.squash || squash_by_config)
            &&& p.no_merge == params.no_merge
        },
{
    if dirty {
        return Err(UpdateError::DirtyWorkingTree);
    }
    let target = revision_or(&params.revision, default_branch);
    let fetch_upstream = names_remote_branch(target.as_str());
    Ok(
        UpdatePlan {
            target,
            fetch_upstream,
            squash_on_noop: params.squash || squash_by_config,
            no_merge: params.no_merge,
        },
    )
}

impl UpdatePlan {
    /// Whether the run ends by compacting merge commits: only when nothing was to merge.
    pub fn compacts_after(&self, outcome: &MergeOutcome) -> (r: bool)
        ensures
            r == (self.squash_on_noop && outcome is NothingToDo),
    {
        self.squash_on_noop && match outcome {
            MergeOutcome::NothingToDo => true,
            _ => false,
        }
    }
}

/// The revision that `check` compares with: the given one, else the recorded parent
/// branch, else `origin/master`.
pub fn check_target(params: &Check, lineage: &LineageFacts) -> (r: String)
    ensures
        r@ == match params.revision {
            Some(v) => v@,
            None => match lineage.parent_branch {
                Some(b) => b@,
                None => "origin/master"@,
            },
        },
{
    match &params.revision {
        Some(v) => v.clone(),
        None => match &lineage.parent_branch {
            Some(b) => b.clone(),
            None => "origin/master".to_string(),
        },
    }
}

/// The revision that `squash` moves to: the given one, else the recorded parent branch;
/// `None` when neither is known.
pub fn squash_target(params: &Squash, lineage: &LineageFacts) -> (r: Option<String>)
    ensures
        opt_view(r) == match params.revision {
            Some(v) => Some(v@),
            None => opt_view(lineage.parent_branch),
        },
{
    match &params.revision {
        Some(v) => Some(v.clone()),
        None => match &lineage.parent_branch {
            Some(b) => Some(b.clone()),
            None => None,
        },
    }
}

/// The message of a commit made by `commit`: the subject, a blank line, then the lineage
/// lines.
pub fn commit_message(subject: &str, lineage: &LineageFacts) -> (r: String)
    ensures
        r@ == subject@ + "\n\n"@ + encode_spec(lineage@),
{
    let mut m = subject.to_string();
    m.append("\n\n");
    let fragment = encode_lineage(lineage);
    m.append(fragment.as_str());
    m
}

/// The index of the last `c` in `s` before `i`; -1 when there is none.
pub open spec fn last_index_before(s: Seq<char>, c: char, i: int) -> int
    decreases i,
{
    if i <= 0 || i > s.len() {
        -1
    } else if s[i - 1] == c {
        i - 1
    } else {
        last_index_before(s, c, i - 1)
    }
}

/// Splits `<remote>/<branch>` at its last slash; a name without slash is a branch alone.
pub fn split_remote_branch(name: &str) -> (r: (Option<String>, String))
    ensures
        ({
            let p = last_index_before(name@, '/', name@.len() as int);
            if p < 0 {
                r.0 is None && r.1@ == name@
            } else {
                &&& r.0 is Some
                &&& r.0->Some_0@ == name@.subrange(0, p)
                &&& r.1@ == name@.subrange(p + 1, name@.len() as int)
            }
        }),
{
    let n = name.unicode_len();
    let mut i = n;
    while i > 0 && name.get_char(i - 1) != '/'
        invariant
            n == name@.len(),
            i <= n,
            last_index_before(name@, '/', i as int) == last_index_before(name@, '/', n as int),
        decreases i,
    {
        i = i - 1;
    }
    if i == 0 {
        (None, name.to_string())
    } else {
        (Some(name.substring_char(0, i - 1).to_string()), name.substring_char(i, n).to_string())
    }
}

/// The message of the merge commit that `merge` makes.
pub fn merge_branch_message(branch_name: &str, current: &str) -> (r: String)
    ensures
        r@ == "Merge branch '"@ + branch_name@ + "' into "@ + current@,
{
    let mut m = String::from_str("Merge branch '");
    m.append(branch_name);
    m.append("' into ");
    m.append(current);
    m
}

/// Whether `delete` may remove `name`: not the default branch (`<remote>/<branch>`), and not
/// a name that ends with a slash and the default branch.
pub fn may_delete_branch(name: &str, default_branch: &str) -> (r: bool)
    ensures
        r == !(name@ == default_branch@ || has_suffix(name@, seq!['/'] + default_branch@)),
{
    if name.to_string() == default_branch.to_string() {
        return false;
    }
    let n = chars_of(name);
    let mut suffix = String::from_str("/");
    suffix.append(default_branch);
    proof {
        reveal_strlit("/");
    }
    let t = chars_of(suffix.as_str());
    assert(t@ =~= seq!['/'] + default_branch@);
    if n.len() < t.len() {
        return true;
    }
    let ends = matches_at(&n, &t, n.len() - t.len());
    assert(ends == occurs_at(n@, t@, n@.len() - t@.len()));
    !ends
}

/// Whether a branch may be deleted once merged: not `master`, nor a branch of a remote.
pub fn may_delete_after_merge(name: &str) -> (r: bool)
    ensures
        r == !(name@ == "master"@ || name@.contains('/')),
{
    let master = "master".to_string();
    let own = name.to_string();
    !(own == master || names_remote_branch(name))
}

fn ends_with_lockfile(path: &str, lockfile: &Vec<char>) -> (r: bool)
    requires
        lockfile@ == lockfile_path(),
    ensures
        r == has_suffix(path@, lockfile_path()),
{
    let p = chars_of(path);
    if p.len() < lockfile.len() {
        return false;
    }
    let r = matches_at(&p, lockfile, p.len() - lockfile.len());
    assert(r == occurs_at(p@, lockfile@, p@.len() - lockfile@.len()));
    r
}

/// `files` without those whose path ends with the lockfile's name, order kept.
pub open spec fn without_lockfile_spec(files: Seq<Seq<char>>) -> Seq<Seq<char>> {
    files.filter(|f: Seq<char>| !has_suffix(f, lockfile_path()))
}

/// The files to hand to git when the lockfile is to be left alone.
pub fn without_lockfile(files: &Vec<String>) -> (r: Vec<String>)
    ensures
        path_views(r@) == without_lockfile_spec(path_views(files@)),
{
    let lockfile = chars_of("Cargo.lock");
    proof {
        reveal_strlit("Cargo.lock");
    }
    assert(lockfile@ =~= lockfile_path());
    let ghost fs = path_views(files@);
    let mut out: Vec<String> = Vec::new();
    let mut i: usize = 0;
    while i < files.len()
        invariant
            i <= files@.len(),
            fs == path_views(files@),
            lockfile@ == lockfile_path(),
            path_views(out@) == without_lockfile_spec(fs.take(i as int)),
        decreases files@.len() - i,
    {
        let f = files[i].clone();
        assert(fs.take(i + 1).drop_last() =~= fs.take(i as int));
        assert(fs.take(i + 1).last() == f@);
        reveal(Seq::filter);
        if !ends_with_lockfile(f.as_str(), &lockfile) {
            let ghost before = path_views(out@);
            out.push(f);
            assert(path_views(out@) =~= before.push(fs[i as int]));
        }
        i = i + 1;
    }
    assert(fs.take(fs.len() as int) =~= fs);
    out
}

/// The extra arguments of `git push`: set the upstream on `origin` for a branch without one.
pub fn push_args(branch_name: &Option<String>, upstream: &Option<String>) -> (r: Vec<String>)
    ensures
        (branch_name is Some && upstream is None) ==> path_views(r@) == seq![
            "--set-upstream"@,
            "origin"@,
            branch_name->Some_0@,
        ],
        !(branch_name is Some && upstream is None) ==> r@.len() == 0,
{
    let mut args: Vec<String> = Vec::new();
    match (branch_name, upstream) {
        (Some(name), None) => {
            args.push("--set-upstream".to_string());
            args.push("origin".to_string());
            args.push(name.clone());
            assert(path_views(args@) =~= seq!["--set-upstream"@, "origin"@, name@]);
        },
        _ => {},
    }
    args
}

} // verus!
