use vstd::prelude::*;
use crate::classify::{classify, path_views, side_for, first_blocking, Classification, Resolution};
use crate::lineage::{encode_lineage, encode_spec, LineageFacts};
use crate::policy::IgnorePolicy;

verus! {

/// The states of an update run.
#[derive(PartialEq, Eq, Structural, Clone, Copy, Debug)]
pub enum Phase {
    /// The range of revisions to merge is not known yet.
    Scanning,
    /// Revisions are being merged one by one, oldest first.
    Applying,
    /// A revision conflicts; the run stops there.
    Blocked,
    /// Every revision of the range is merged (or there was none).
    Done,
}

/// How a run ended, or where it stands.
#[derive(Debug, Clone, PartialEq, Eq)]
pub enum MergeOutcome {
    /// The range was empty: nothing was changed.
    NothingToDo,
    /// Every revision was merged; `head` is the last merge commit.
    Applied { head: String, applied: usize, ignored_paths: Vec<String> },
    /// `first` conflicts; `applied` revisions were merged before it and `remaining` are left,
    /// `first` included; `ignored_paths` are the conflicts settled in the merges made.
    Blocked { first: String, applied: usize, remaining: usize, ignored_paths: Vec<String> },
}

/// What the caller is to do next.
#[derive(Debug, Clone, PartialEq, Eq)]
pub enum Action {
    /// Make a trial merge of HEAD with `revision` and report the conflicting paths.
    Classify { revision: String },
    /// Create the merge commit with first parent `head` (the current HEAD) and second parent
    /// `revision`, with `message`, settling each listed path from the given side, and report
    /// the new commit.
    Commit { head: String, revision: String, message: String, resolutions: Vec<Resolution> },
    /// Start an ordinary merge of `revision` that leaves its conflicts for the user.
    MergeWithConflicts { revision: String, message: String },
    /// The run is over.
    Finish(MergeOutcome),
}

/// The model of an engine.
pub struct EngineView {
    pub phase: Phase,
    pub no_merge: bool,
    pub head: Seq<char>,
    pub revisions: Seq<Seq<char>>,
    pub next: int,
    pub awaiting_commit: bool,
    pub pending: Seq<Seq<char>>,
    pub ignored: Seq<Seq<char>>,
    pub lineage: (Option<Seq<char>>, Option<Seq<char>>),
}

/// `s` with `x` appended unless it already holds it.
pub open spec fn add_unique(s: Seq<Seq<char>>, x: Seq<char>) -> Seq<Seq<char>> {
    if s.contains(x) {
        s
    } else {
        s.push(x)
    }
}

/// `s` with each of `xs` added in turn by `add_unique`.
pub open spec fn add_all(s: Seq<Seq<char>>, xs: Seq<Seq<char>>) -> Seq<Seq<char>>
    decreases xs.len(),
{
    if xs.len() == 0 {
        s
    } else {
        add_unique(add_all(s, xs.drop_last()), xs.last())
    }
}

/// The message of a merge commit made without conflict.
pub open spec fn merge_message(
    revision: Seq<char>,
    lineage: (Option<Seq<char>>, Option<Seq<char>>),
) -> Seq<char> {
    "Merge commit "@ + revision + " (no conflict)\n\n"@ + encode_spec(lineage)
}

/// The message offered for a merge that has conflicts to resolve.
pub open spec fn conflict_message(
    revision: Seq<char>,
    lineage: (Option<Seq<char>>, Option<Seq<char>>),
) -> Seq<char> {
    "Merge commit "@ + revision + " (conflicts)\n\n"@ + encode_spec(lineage)
}

impl EngineView {
    /// The revisions merged so far, in the order their merge commits were made.
    pub open spec fn merged(self) -> Seq<Seq<char>> {
        self.revisions.take(self.next)
    }

    pub open spec fn wf(self) -> bool {
        &&& 0 <= self.next <= self.revisions.len()
        &&& self.phase == Phase::Scanning ==> self.next == 0 && self.revisions.len() == 0
            && !self.awaiting_commit
        &&& self.phase == Phase::Applying ==> self.next < self.revisions.len()
        &&& self.phase == Phase::Blocked ==> self.next < self.revisions.len()
            && !self.awaiting_commit
        &&& self.phase == Phase::Done ==> self.next == self.revisions.len()
            && !self.awaiting_commit
    }

    /// The state once the range is known.
    pub open spec fn scanned(
        self,
        head: Seq<char>,
        revisions: Seq<Seq<char>>,
        lineage: (Option<Seq<char>>, Option<Seq<char>>),
    ) -> EngineView {
        EngineView {
            phase: if revisions.len() == 0 {
                Phase::Done
            } else {
                Phase::Applying
            },
            head,
            revisions,
            next: 0,
            awaiting_commit: false,
            pending: Seq::empty(),
            ignored: Seq::empty(),
            lineage,
            ..self
        }
    }

    /// The state once the trial merge of the next revision is judged: `blocked` when a path
    /// may not be settled, else `paths` are the conflicting paths to settle.
    pub open spec fn judged(self, blocked: bool, paths: Seq<Seq<char>>) -> EngineView {
        if blocked {
            EngineView { phase: Phase::Blocked, ..self }
        } else {
            EngineView {
                awaiting_commit: true,
                pending: paths,
                ignored: add_all(self.ignored, paths),
                ..self
            }
        }
    }

    /// The state once the merge commit of the next revision is `head`.
    pub open spec fn committed(self, head: Seq<char>) -> EngineView {
        EngineView {
            phase: if self.next + 1 == self.revisions.len() {
                Phase::Done
            } else {
                Phase::Applying
            },
            head,
            next: self.next + 1,
            awaiting_commit: false,
            pending: Seq::empty(),
            ..self
        }
    }
}

impl MergeOutcome {
    /// The outcome that a run in state `v` reports.
    pub open spec fn of(self, v: EngineView) -> bool {
        if v.phase == Phase::Blocked {
            self is Blocked && self->Blocked_first@ == v.revisions[v.next]
                && self->Blocked_applied == v.next && self->Blocked_remaining == v.revisions.len()
                - v.next && path_views(self->Blocked_ignored_paths@) == v.ignored
        } else if v.revisions.len() == 0 {
            self is NothingToDo
        } else {
            self is Applied && self->Applied_head@ == v.head && self->Applied_applied
                == v.next && path_views(self->Applied_ignored_paths@) == v.ignored
        }
    }
}

impl Action {
    /// Whether this is the action that an engine in state `v` asks for.
    pub open spec fn of(self, v: EngineView) -> bool {
        match v.phase {
            Phase::Scanning => false,
            Phase::Applying => if v.awaiting_commit {
                &&& self is Commit
                &&& self->Commit_head@ == v.head
                &&& self->Commit_revision@ == v.revisions[v.next]
                &&& self->Commit_message@ == merge_message(v.revisions[v.next], v.lineage)
                &&& self->Commit_resolutions@.len() == v.pending.len()
                &&& forall|i: int|
                    0 <= i < v.pending.len() ==> {
                        &&& (#[trigger] self->Commit_resolutions@[i]).path@ == v.pending[i]
                        &&& self->Commit_resolutions@[i].side == side_for(v.pending[i])
                    }
            } else {
                self is Classify && self->Classify_revision@ == v.revisions[v.next]
            },
            Phase::Blocked => if v.no_merge {
                self is Finish && self->Finish_0.of(v)
            } else {
                &&& self is MergeWithConflicts
                &&& self->MergeWithConflicts_revision@ == v.revisions[v.next]
                &&& self->MergeWithConflicts_message@ == conflict_message(
                    v.revisions[v.next],
                    v.lineage,
                )
            },
            Phase::Done => self is Finish && self->Finish_0.of(v),
        }
    }
}

/// The incremental merge engine: merges the revisions of a range one by one, oldest first,
/// and stops at the first one whose trial merge has a conflict that may not be settled.
pub struct Engine {
    phase: Phase,
    no_merge: bool,
    head: String,
    revisions: Vec<String>,
    next: usize,
    awaiting_commit: bool,
    pending: Ghost<Seq<Seq<char>>>,
    ignored: Vec<String>,
    lineage: LineageFacts,
}

impl View for Engine {
    type V = EngineView;

    closed spec fn view(&self) -> EngineView {
        EngineView {
            phase: self.phase,
            no_merge: self.no_merge,
            head: self.head@,
            revisions: path_views(self.revisions@),
            next: self.next as int,
            awaiting_commit: self.awaiting_commit,
            pending: self.pending@,
            ignored: path_views(self.ignored@),
            lineage: self.lineage@,
        }
    }
}

fn message_with(revision: &str, marker: &str, lineage: &LineageFacts) -> (r: String)
    ensures
        r@ == "Merge commit "@ + revision@ + marker@ + encode_spec(lineage@),
{
    let mut m = String::from_str("Merge commit ");
    m.append(revision);
    m.append(marker);
    let fragment = encode_lineage(lineage);
    m.append(fragment.as_str());
    m
}

fn add_path(ignored: &mut Vec<String>, path: &String)
    ensures
        path_views(final(ignored)@) == add_unique(path_views(old(ignored)@), path@),
{
    let ghost before = path_views(ignored@);
    let mut i: usize = 0;
    while i < ignored.len()
        invariant
            path_views(ignored@) == before,
            i <= ignored@.len(),
            forall|j: int| 0 <= j < i ==> before[j] != path@,
        decreases ignored@.len() - i,
    {
        if ignored[i] == *path {
            assert(before[i as int] == path@);
            return;
        }
        i = i + 1;
    }
    assert(!before.contains(path@));
    ignored.push(path.clone());
    assert(path_views(ignored@) =~= before.push(path@));
}

fn add_paths(ignored: &mut Vec<String>, resolutions: &Vec<Resolution>, Ghost(cs): Ghost<Seq<Seq<char>>>)
    requires
        resolutions@.len() == cs.len(),
        forall|j: int| 0 <= j < cs.len() ==> (#[trigger] resolutions@[j]).path@ == cs[j],
    ensures
        path_views(final(ignored)@) == add_all(path_views(old(ignored)@), cs),
{
    let ghost before = path_views(ignored@);
    let mut i: usize = 0;
    while i < resolutions.len()
        invariant
            i <= resolutions@.len(),
            resolutions@.len() == cs.len(),
            forall|j: int| 0 <= j < cs.len() ==> (#[trigger] resolutions@[j]).path@ == cs[j],
            path_views(ignored@) == add_all(before, cs.take(i as int)),
        decreases resolutions@.len() - i,
    {
        add_path(ignored, &resolutions[i].path);
        assert(cs.take(i + 1).drop_last() =~= cs.take(i as int));
        i = i + 1;
    }
    assert(cs.take(cs.len() as int) =~= cs);
}

impl Engine {
    /// A new engine, before the range is known.
    pub fn new(no_merge: bool) -> (r: Engine)
        ensures
            r@.phase == Phase::Scanning,
            r@.no_merge == no_merge,
            r@.revisions.len() == 0,
            r@.wf(),
    {
        Engine {
            phase: Phase::Scanning,
            no_merge,
            head: String::new(),
            revisions: Vec::new(),
            next: 0,
            awaiting_commit: false,
            pending: Ghost(Seq::empty()),
            ignored: Vec::new(),
            lineage: LineageFacts { forked_at: None, parent_branch: None },
        }
    }

    pub fn phase(&self) -> (r: Phase)
        ensures
            r == self@.phase,
    {
        self.phase
    }

    /// Whether the engine waits for the conflicting paths of a trial merge.
    pub fn awaits_classification(&self) -> (r: bool)
        ensures
            r == (self@.phase == Phase::Applying && !self@.awaiting_commit),
    {
        self.phase == Phase::Applying && !self.awaiting_commit
    }

    /// Whether the engine waits for a merge commit to be made.
    pub fn awaits_commit(&self) -> (r: bool)
        ensures
            r == (self@.phase == Phase::Applying && self@.awaiting_commit),
    {
        self.phase == Phase::Applying && self.awaiting_commit
    }

    /// Takes the range to merge, oldest first, with HEAD and the lineage facts for the
    /// messages. An empty range ends the run with `NothingToDo`; otherwise the first
    /// revision is to be classified.
    pub fn scan(&mut self, head: String, range: Vec<String>, lineage: LineageFacts) -> (r: Action)
        requires
            old(self)@.phase == Phase::Scanning,
            old(self)@.wf(),
        ensures
            final(self)@ == old(self)@.scanned(head@, path_views(range@), lineage@),
            final(self)@.wf(),
            r.of(final(self)@),
    {
        self.head = head;
        self.revisions = range;
        self.next = 0;
        self.awaiting_commit = false;
        self.pending = Ghost(Seq::empty());
        self.ignored = Vec::new();
        self.lineage = lineage;
        if self.revisions.len() == 0 {
            self.phase = Phase::Done;
        } else {
            self.phase = Phase::Applying;
        }
        assert(path_views(self.ignored@) =~= Seq::<Seq<char>>::empty());
        self.action()
    }

    /// Takes the conflicting paths of the trial merge of HEAD with the next revision.
    pub fn classified(&mut self, conflicts: &Vec<String>, policy: &IgnorePolicy) -> (r: Action)
        requires
            old(self)@.wf(),
            old(self)@.phase == Phase::Applying,
            !old(self)@.awaiting_commit,
        ensures
            final(self)@ == old(self)@.judged(
                first_blocking(*policy, path_views(conflicts@), 0) < conflicts@.len(),
                path_views(conflicts@),
            ),
            final(self)@.wf(),
            r.of(final(self)@),
    {
        let ghost cs = path_views(conflicts@);
        match classify(conflicts, policy) {
            Classification::RealConflict(_) => {
                self.phase = Phase::Blocked;
                self.action()
            },
            verdict => {
                let resolutions = match verdict {
                    Classification::Ignorable(rs) => rs,
                    _ => Vec::new(),
                };
                add_paths(&mut self.ignored, &resolutions, Ghost(cs));
                self.awaiting_commit = true;
                self.pending = Ghost(cs);
                let revision = self.revisions[self.next].clone();
                let message = message_with(revision.as_str(), " (no conflict)\n\n", &self.lineage);
                Action::Commit { head: self.head.clone(), revision, message, resolutions }
            },
        }
    }

    /// Takes the merge commit made for the next revision, which is the new HEAD.
    pub fn committed(&mut self, new_head: String) -> (r: Action)
        requires
            old(self)@.wf(),
            old(self)@.phase == Phase::Applying,
            old(self)@.awaiting_commit,
        ensures
            final(self)@ == old(self)@.committed(new_head@),
            final(self)@.wf(),
            r.of(final(self)@),
    {
        let n = self.revisions.len();
        assert(self.next < n);
        self.head = new_head;
        self.next = self.next + 1;
        self.awaiting_commit = false;
        self.pending = Ghost(Seq::empty());
        if self.next == self.revisions.len() {
            self.phase = Phase::Done;
        }
        self.action()
    }

    /// The conflicting paths settled so far in this run, each once, in the order first met.
    pub fn ignored_paths(&self) -> (r: Vec<String>)
        ensures
            path_views(r@) == self@.ignored,
    {
        self.ignored.clone()
    }

    /// Where the run stands: for a blocked or finished run, its outcome.
    pub fn outcome(&self) -> (r: Option<MergeOutcome>)
        requires
            self@.wf(),
        ensures
            r is Some <==> (self@.phase == Phase::Blocked || self@.phase == Phase::Done),
            r is Some ==> r->Some_0.of(self@),
    {
        match self.phase {
            Phase::Blocked => Some(
                MergeOutcome::Blocked {
                    first: self.revisions[self.next].clone(),
                    applied: self.next,
                    remaining: self.revisions.len() - self.next,
                    ignored_paths: self.ignored.clone(),
                },
            ),
            Phase::Done => if self.revisions.len() == 0 {
                Some(MergeOutcome::NothingToDo)
            } else {
                Some(
                    MergeOutcome::Applied {
                        head: self.head.clone(),
                        applied: self.next,
                        ignored_paths: self.ignored.clone(),
                    },
                )
            },
            _ => None,
        }
    }

    fn action(&self) -> (r: Action)
        requires
            self@.wf(),
            self@.phase != Phase::Scanning,
            self@.phase == Phase::Applying ==> !self@.awaiting_commit,
        ensures
            r.of(self@),
    {
        match self.phase {
            Phase::Applying => Action::Classify { revision: self.revisions[self.next].clone() },
            Phase::Blocked => if self.no_merge {
                Action::Finish(self.outcome().unwrap())
            } else {
                let revision = self.revisions[self.next].clone();
                let message = message_with(revision.as_str(), " (conflicts)\n\n", &self.lineage);
                Action::MergeWithConflicts { revision, message }
            },
            _ => Action::Finish(self.outcome().unwrap()),
        }
    }
}

} // verus!
