use vstd::prelude::*;
use crate::classify::{first_blocking, lockfile_path, Side};
use crate::engine::{merge_message, Action, EngineView, Phase};
use crate::squash::{is_clean_merge_message, subject_end};
use crate::policy::IgnorePolicy;

verus! {

/// The state an engine reaches from `v` when the trial merges of its next revisions are
/// judged in turn (`blocked[i]`: the i-th has a conflict that may not be settled; the others
/// are clean) and each merge commit made becomes the matching entry of `heads`.
pub open spec fn replay(v: EngineView, blocked: Seq<bool>, heads: Seq<Seq<char>>) -> EngineView
    decreases blocked.len(),
{
    if blocked.len() == 0 || v.phase != Phase::Applying || v.awaiting_commit {
        v
    } else if blocked[0] {
        v.judged(true, Seq::empty())
    } else {
        replay(
            v.judged(false, Seq::empty()).committed(heads[0]),
            blocked.drop_first(),
            heads.drop_first(),
        )
    }
}

/// A run over an empty range ends at once with `NothingToDo`: HEAD stays where it was and
/// no commit is asked for.
pub proof fn lemma_empty_range_does_nothing(
    v: EngineView,
    head: Seq<char>,
    lineage: (Option<Seq<char>>, Option<Seq<char>>),
    a: Action,
)
    requires
        v.phase == Phase::Scanning,
        v.wf(),
        a.of(v.scanned(head, Seq::empty(), lineage)),
    ensures
        v.scanned(head, Seq::empty(), lineage).phase == Phase::Done,
        v.scanned(head, Seq::empty(), lineage).head == head,
        a is Finish && a->Finish_0 is NothingToDo,
{
}

/// Running twice in a row with nothing to merge gives `NothingToDo` both times: the first
/// run leaves HEAD as it was, so the second one reads the same empty range from it.
pub proof fn lemma_rerun_does_nothing(
    v1: EngineView,
    v2: EngineView,
    head: Seq<char>,
    lineage: (Option<Seq<char>>, Option<Seq<char>>),
    a1: Action,
    a2: Action,
)
    requires
        v1.phase == Phase::Scanning && v1.wf(),
        v2.phase == Phase::Scanning && v2.wf(),
        a1.of(v1.scanned(head, Seq::empty(), lineage)),
        a2.of(v2.scanned(v1.scanned(head, Seq::empty(), lineage).head, Seq::empty(), lineage)),
    ensures
        a1 is Finish && a1->Finish_0 is NothingToDo,
        a2 is Finish && a2->Finish_0 is NothingToDo,
{
}

proof fn lemma_clean_run_from(v: EngineView, blocked: Seq<bool>, heads: Seq<Seq<char>>)
    requires
        v.wf(),
        v.phase == Phase::Applying,
        !v.awaiting_commit,
        blocked.len() == v.revisions.len() - v.next,
        heads.len() == blocked.len(),
        forall|i: int| 0 <= i < blocked.len() ==> !blocked[i],
    ensures
        replay(v, blocked, heads).phase == Phase::Done,
        replay(v, blocked, heads).next == v.revisions.len(),
        replay(v, blocked, heads).revisions == v.revisions,
        replay(v, blocked, heads).head == heads.last(),
        replay(v, blocked, heads).wf(),
    decreases blocked.len(),
{
    let w = v.judged(false, Seq::empty()).committed(heads[0]);
    if blocked.len() > 1 {
        assert forall|i: int| 0 <= i < blocked.drop_first().len() implies !blocked.drop_first()[i] by {
            assert(!blocked[i + 1]);
        }
        lemma_clean_run_from(w, blocked.drop_first(), heads.drop_first());
        assert(heads.drop_first().last() == heads.last());
    } else {
        assert(replay(w, blocked.drop_first(), heads.drop_first()) == w);
    }
}

/// When every revision of a non-empty range merges cleanly, the run reaches `Done` with
/// all of them merged in order, and HEAD is the merge commit of the last one.
pub proof fn lemma_clean_range_applies_all(
    v: EngineView,
    head: Seq<char>,
    revisions: Seq<Seq<char>>,
    lineage: (Option<Seq<char>>, Option<Seq<char>>),
    heads: Seq<Seq<char>>,
    a: Action,
)
    requires
        v.phase == Phase::Scanning,
        v.wf(),
        revisions.len() > 0,
        heads.len() == revisions.len(),
        a.of(replay(v.scanned(head, revisions, lineage), Seq::new(revisions.len(), |i: int| false), heads)),
    ensures
        ({
            let w = replay(v.scanned(head, revisions, lineage), Seq::new(revisions.len(), |i: int| false), heads);
            &&& w.phase == Phase::Done
            &&& w.merged() == revisions
            &&& w.head == heads.last()
            &&& a is Finish && a->Finish_0 is Applied
            &&& a->Finish_0->Applied_applied == revisions.len()
            &&& a->Finish_0->Applied_head@ == heads.last()
        }),
{
    lemma_clean_run_from(v.scanned(head, revisions, lineage), Seq::new(revisions.len(), |i: int| false), heads);
    let w = replay(v.scanned(head, revisions, lineage), Seq::new(revisions.len(), |i: int| false), heads);
    assert(w.merged() =~= revisions);
}

proof fn lemma_blocked_run_from(v: EngineView, k: int, blocked: Seq<bool>, heads: Seq<Seq<char>>)
    requires
        v.wf(),
        v.phase == Phase::Applying,
        !v.awaiting_commit,
        0 <= k < blocked.len(),
        v.next + k < v.revisions.len(),
        heads.len() == blocked.len(),
        forall|i: int| 0 <= i < k ==> !blocked[i],
        blocked[k],
    ensures
        replay(v, blocked, heads).phase == Phase::Blocked,
        replay(v, blocked, heads).next == v.next + k,
        replay(v, blocked, heads).revisions == v.revisions,
        replay(v, blocked, heads).no_merge == v.no_merge,
        replay(v, blocked, heads).head == if k == 0 { v.head } else { heads[k - 1] },
        replay(v, blocked, heads).wf(),
    decreases blocked.len(),
{
    if k > 0 {
        let w = v.judged(false, Seq::empty()).committed(heads[0]);
        assert forall|i: int| 0 <= i < k - 1 implies !blocked.drop_first()[i] by {
            assert(!blocked[i + 1]);
        }
        lemma_blocked_run_from(w, k - 1, blocked.drop_first(), heads.drop_first());
    }
}

/// When the revision at index `k` of the range is the first whose trial merge has a conflict
/// that may not be settled, the run stops blocked on it with `k` revisions applied and the
/// rest, that one included, remaining; exactly the revisions before it were merged, and HEAD
/// is the merge commit of the last of them.
pub proof fn lemma_first_conflict_blocks(
    v: EngineView,
    head: Seq<char>,
    revisions: Seq<Seq<char>>,
    lineage: (Option<Seq<char>>, Option<Seq<char>>),
    k: int,
    blocked: Seq<bool>,
    heads: Seq<Seq<char>>,
    a: Action,
)
    requires
        v.phase == Phase::Scanning,
        v.wf(),
        v.no_merge,
        0 <= k < revisions.len(),
        blocked.len() == revisions.len(),
        heads.len() == revisions.len(),
        forall|i: int| 0 <= i < k ==> !blocked[i],
        blocked[k],
        a.of(replay(v.scanned(head, revisions, lineage), blocked, heads)),
    ensures
        ({
            let w = replay(v.scanned(head, revisions, lineage), blocked, heads);
            &&& w.phase == Phase::Blocked
            &&& w.merged() == revisions.take(k)
            &&& w.head == if k == 0 { head } else { heads[k - 1] }
            &&& a is Finish && a->Finish_0 is Blocked
            &&& a->Finish_0->Blocked_first@ == revisions[k]
            &&& a->Finish_0->Blocked_applied == k
            &&& a->Finish_0->Blocked_remaining == revisions.len() - k
        }),
{
    lemma_blocked_run_from(v.scanned(head, revisions, lineage), k, blocked, heads);
}

/// A revision whose only conflicting path matches the ignore policy is merged, and the path
/// takes their content, except the lockfile, which keeps ours.
pub proof fn lemma_ignored_conflict_takes_theirs(
    v: EngineView,
    policy: IgnorePolicy,
    path: Seq<char>,
    a: Action,
)
    requires
        v.wf(),
        v.phase == Phase::Applying,
        !v.awaiting_commit,
        policy.ignores(path),
        a.of(v.judged(first_blocking(policy, seq![path], 0) < 1, seq![path])),
    ensures
        a is Commit,
        a->Commit_revision@ == v.revisions[v.next],
        a->Commit_resolutions@.len() == 1,
        a->Commit_resolutions@[0].path@ == path,
        a->Commit_resolutions@[0].side == if path == lockfile_path() {
            Side::Ours
        } else {
            Side::Theirs
        },
{
    let cs = seq![path];
    assert(first_blocking(policy, cs, 1) == 1);
    assert(first_blocking(policy, cs, 0) == 1);
}

proof fn lemma_subject_end_at(m: Seq<char>, i: int, j: int)
    requires
        0 <= i <= j < m.len(),
        m[j] == '\n',
        forall|k: int| i <= k < j ==> m[k] != '\n',
    ensures
        subject_end(m, i) == j,
    decreases j - i,
{
    if i < j {
        lemma_subject_end_at(m, i + 1, j);
    }
}

/// The merge commits that the engine makes are the ones that the compactor gathers: their
/// message has the subject it looks for, whatever the revision (on one line) and lineage.
pub proof fn lemma_engine_merges_are_compacted(
    revision: Seq<char>,
    lineage: (Option<Seq<char>>, Option<Seq<char>>),
)
    requires
        !revision.contains('\n'),
    ensures
        is_clean_merge_message(merge_message(revision, lineage)),
{
    reveal_strlit("Merge commit ");
    reveal_strlit(" (no conflict)\n\n");
    reveal_strlit(" (no conflict)");
    let p = "Merge commit "@;
    let t = " (no conflict)\n\n"@;
    let s = " (no conflict)"@;
    let m = merge_message(revision, lineage);
    let e = (p.len() + revision.len() + s.len()) as int;
    assert(m =~= p + revision + t + crate::lineage::encode_spec(lineage));
    assert forall|k: int| 0 <= k < e implies m[k] != '\n' by {
        if k >= p.len() && k < p.len() + revision.len() {
            assert(m[k] == revision[k - p.len()]);
        }
    }
    assert(m[e] == '\n');
    lemma_subject_end_at(m, 0, e);
    assert(m.subrange(0, p.len() as int) =~= p);
    assert(m.subrange(e - s.len(), e) =~= s);
}

} // verus!
