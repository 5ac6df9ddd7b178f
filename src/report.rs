use vstd::prelude::*;
use crate::classify::{lockfile_path, path_views};
use crate::engine::MergeOutcome;

verus! {

/// The digit for `d < 16`, lower case past nine.
pub open spec fn digit_char(d: nat) -> char {
    if d == 0 { '0' } else if d == 1 { '1' } else if d == 2 { '2' } else if d == 3 { '3' }
    else if d == 4 { '4' } else if d == 5 { '5' } else if d == 6 { '6' } else if d == 7 { '7' }
    else if d == 8 { '8' } else if d == 9 { '9' } else if d == 10 { 'a' } else if d == 11 { 'b' }
    else if d == 12 { 'c' } else if d == 13 { 'd' } else if d == 14 { 'e' } else { 'f' }
}

pub fn digit_str(d: usize) -> (r: &'static str)
    requires
        d < 16,
    ensures
        r@ == seq![digit_char(d as nat)],
{
    proof {
        reveal_strlit("0");
        reveal_strlit("1");
        reveal_strlit("2");
        reveal_strlit("3");
        reveal_strlit("4");
        reveal_strlit("5");
        reveal_strlit("6");
        reveal_strlit("7");
        reveal_strlit("8");
        reveal_strlit("9");
        reveal_strlit("a");
        reveal_strlit("b");
        reveal_strlit("c");
        reveal_strlit("d");
        reveal_strlit("e");
        reveal_strlit("f");
    }
    let r = if d == 0 { "0" } else if d == 1 { "1" } else if d == 2 { "2" } else if d == 3 { "3" }
    else if d == 4 { "4" } else if d == 5 { "5" } else if d == 6 { "6" } else if d == 7 { "7" }
    else if d == 8 { "8" } else if d == 9 { "9" } else if d == 10 { "a" } else if d == 11 { "b" }
    else if d == 12 { "c" } else if d == 13 { "d" } else if d == 14 { "e" } else { "f" };
    assert(r@ =~= seq![digit_char(d as nat)]);
    r
}

/// `n` written in decimal, without leading zeros.
pub open spec fn decimal_spec(n: nat) -> Seq<char>
    decreases n,
{
    if n < 10 {
        seq![digit_char(n)]
    } else {
        decimal_spec(n / 10) + seq![digit_char(n % 10)]
    }
}

/// `n` in decimal.
pub fn decimal(n: usize) -> (r: String)
    ensures
        r@ == decimal_spec(n as nat),
    decreases n,
{
    if n < 10 {
        String::from_str(digit_str(n))
    } else {
        let mut r = decimal(n / 10);
        r.append(digit_str(n % 10));
        r
    }
}

pub open spec fn up_to_date_line() -> Seq<char> {
    "Your branch is already up-to-date."@
}

pub open spec fn lockfile_warning_line() -> Seq<char> {
    "WARNING: conflict with Cargo.lock detected. Run `cargo git update --deps` to fix it."@
}

pub open spec fn ignored_header_line() -> Seq<char> {
    "The following files had conflicts but have been ignored:"@
}

pub open spec fn all_merged_line() -> Seq<char> {
    "Nothing more to merge. Your branch is up-to-date."@
}

pub open spec fn behind_line(target: Seq<char>, n: nat) -> Seq<char> {
    "Your current branch is still behind '"@ + target + "' by "@ + decimal_spec(n)
        + " commit(s)."@
}

pub open spec fn first_conflict_line(revision: Seq<char>) -> Seq<char> {
    "First merge conflict detected on: "@ + revision
}

pub open spec fn merged_line(revision: Seq<char>) -> Seq<char> {
    "All the commits to "@ + revision + " have been merged successfully without conflict"@
}

/// The lines about settled conflicts: a warning when the lockfile is among `ps`, then,
/// when there are any, a header and each path.
pub open spec fn ignored_lines_spec(ps: Seq<Seq<char>>) -> Seq<Seq<char>> {
    let warning = if ps.contains(lockfile_path()) {
        seq![lockfile_warning_line()]
    } else {
        Seq::empty()
    };
    let listing = if ps.len() > 0 {
        seq![ignored_header_line()] + ps
    } else {
        Seq::empty()
    };
    warning + listing
}

/// The lines that report `outcome` of a run towards `target`.
pub open spec fn outcome_lines_spec(outcome: MergeOutcome, target: Seq<char>) -> Seq<Seq<char>> {
    match outcome {
        MergeOutcome::NothingToDo => seq![up_to_date_line()],
        MergeOutcome::Applied { ignored_paths, .. } => ignored_lines_spec(
            path_views(ignored_paths@),
        ) + seq![all_merged_line()],
        MergeOutcome::Blocked { first, remaining, ignored_paths, .. } => ignored_lines_spec(
            path_views(ignored_paths@),
        ) + seq![behind_line(target, remaining as nat), first_conflict_line(first@)],
    }
}

/// The line printed after a revision is merged.
pub fn merged_message(revision: &str) -> (r: String)
    ensures
        r@ == merged_line(revision@),
{
    let mut m = String::from_str("All the commits to ");
    m.append(revision);
    m.append(" have been merged successfully without conflict");
    m
}

pub(crate) fn contains_lockfile(paths: &Vec<String>) -> (r: bool)
    ensures
        r == path_views(paths@).contains(lockfile_path()),
{
    let lockfile = "Cargo.lock".to_string();
    proof {
        reveal_strlit("Cargo.lock");
    }
    assert(lockfile@ =~= lockfile_path());
    let mut i: usize = 0;
    while i < paths.len()
        invariant
            i <= paths@.len(),
            lockfile@ == lockfile_path(),
            forall|j: int| 0 <= j < i ==> paths@[j]@ != lockfile_path(),
        decreases paths@.len() - i,
    {
        if paths[i] == lockfile {
            assert(path_views(paths@)[i as int] == lockfile_path());
            return true;
        }
        i = i + 1;
    }
    assert forall|j: int| 0 <= j < path_views(paths@).len() implies path_views(paths@)[j]
        != lockfile_path() by {
        assert(paths@[j]@ != lockfile_path());
    }
    false
}

/// The warning to print when the lockfile is among the settled `paths`.
pub fn lockfile_warning(paths: &Vec<String>) -> (r: Option<String>)
    ensures
        r is Some <==> path_views(paths@).contains(lockfile_path()),
        r is Some ==> r->Some_0@ == lockfile_warning_line(),
{
    if contains_lockfile(paths) {
        Some(String::from_str(
            "WARNING: conflict with Cargo.lock detected. Run `cargo git update --deps` to fix it.",
        ))
    } else {
        None
    }
}

fn push_ignored_lines(lines: &mut Vec<String>, ignored_paths: &Vec<String>)
    ensures
        path_views(final(lines)@) == path_views(old(lines)@) + ignored_lines_spec(
            path_views(ignored_paths@),
        ),
{
    let ghost start = path_views(lines@);
    let ghost ps = path_views(ignored_paths@);
    let ghost warning: Seq<Seq<char>> = if ps.contains(lockfile_path()) {
        seq![lockfile_warning_line()]
    } else {
        Seq::empty()
    };
    if contains_lockfile(ignored_paths) {
        lines.push(String::from_str(
            "WARNING: conflict with Cargo.lock detected. Run `cargo git update --deps` to fix it.",
        ));
    }
    assert(path_views(lines@) =~= start + warning);
    if ignored_paths.len() > 0 {
        lines.push(String::from_str("The following files had conflicts but have been ignored:"));
        let ghost header = path_views(lines@);
        let mut i: usize = 0;
        while i < ignored_paths.len()
            invariant
                i <= ignored_paths@.len(),
                ps == path_views(ignored_paths@),
                path_views(lines@) == header + ps.take(i as int),
            decreases ignored_paths@.len() - i,
        {
            let path = ignored_paths[i].clone();
            assert(path@ == ps[i as int]);
            let ghost before = path_views(lines@);
            lines.push(path);
            assert(path_views(lines@) =~= before.push(ps[i as int]));
            assert(ps.take(i + 1) =~= ps.take(i as int).push(ps[i as int]));
            assert(path_views(lines@) =~= header + ps.take(i + 1));
            i = i + 1;
        }
        assert(ps.take(ps.len() as int) =~= ps);
        assert(path_views(lines@) =~= start + (warning + (seq![ignored_header_line()] + ps)));
    } else {
        assert(path_views(lines@) =~= start + (warning + Seq::<Seq<char>>::empty()));
    }
}

/// The lines that report how a run towards `target` ended: nothing to do; everything
/// merged; or how far behind the branch still is and where the first conflict is. The last
/// two are preceded by a warning when the lockfile had a conflict and by the list of the
/// conflicting paths that were settled.
pub fn outcome_lines(outcome: &MergeOutcome, target: &str) -> (r: Vec<String>)
    ensures
        path_views(r@) == outcome_lines_spec(*outcome, target@),
{
    let mut lines: Vec<String> = Vec::new();
    match outcome {
        MergeOutcome::NothingToDo => {
            lines.push(String::from_str("Your branch is already up-to-date."));
        },
        MergeOutcome::Applied { ignored_paths, .. } => {
            push_ignored_lines(&mut lines, ignored_paths);
            let ghost before = path_views(lines@);
            lines.push(String::from_str("Nothing more to merge. Your branch is up-to-date."));
            assert(path_views(lines@) =~= before + seq![all_merged_line()]);
        },
        MergeOutcome::Blocked { first, remaining, ignored_paths, .. } => {
            push_ignored_lines(&mut lines, ignored_paths);
            let ghost before = path_views(lines@);
            let mut behind = String::from_str("Your current branch is still behind '");
            behind.append(target);
            behind.append("' by ");
            let count = decimal(*remaining);
            behind.append(count.as_str());
            behind.append(" commit(s).");
            lines.push(behind);
            let mut conflict = String::from_str("First merge conflict detected on: ");
            conflict.append(first.as_str());
            lines.push(conflict);
            assert(path_views(lines@) =~= before + seq![
                behind_line(target@, *remaining as nat),
                first_conflict_line(first@),
            ]);
        },
    }
    assert(path_views(lines@) =~= outcome_lines_spec(*outcome, target@));
    lines
}

} // verus!
