use vstd::prelude::*;
use crate::classify::{classify, first_blocking, lockfile_path, path_views, Classification};
use crate::policy::IgnorePolicy;
use crate::report::contains_lockfile;

verus! {

/// What a conflict check asks for next, or how it ended.
#[derive(Debug, Clone, PartialEq, Eq)]
pub enum CheckStep {
    /// HEAD already holds every revision of the target.
    UpToDate,
    /// Make a trial merge of HEAD with this revision and report its conflicting paths.
    Try(String),
    /// The check is over: `conflict_on` is the conflicting revision to report, `None` when
    /// the target merges; `lockfile_conflict` tells that the merge found had a lockfile
    /// conflict, settled.
    Finished { conflict_on: Option<String>, lockfile_conflict: bool },
}

/// The model of a conflict check.
pub struct ConflictCheckView {
    pub revisions: Seq<Seq<char>>,
    pub failed: int,
    pub done: bool,
}

impl ConflictCheckView {
    pub open spec fn wf(self) -> bool {
        0 <= self.failed <= self.revisions.len() && (!self.done ==> self.failed
            < self.revisions.len())
    }
}

/// Checks, without merging anything, whether HEAD merges with a target: the revisions of
/// the range are tried from the newest down until one merges; the conflict reported is on
/// the oldest of the newest revisions that do not.
pub struct ConflictCheck {
    revisions: Vec<String>,
    failed: usize,
    done: bool,
}

impl View for ConflictCheck {
    type V = ConflictCheckView;

    closed spec fn view(&self) -> ConflictCheckView {
        ConflictCheckView {
            revisions: path_views(self.revisions@),
            failed: self.failed as int,
            done: self.done,
        }
    }
}

impl ConflictCheck {
    /// Starts a check over `range`, oldest first: an empty range is up to date; otherwise
    /// the newest revision is tried first.
    pub fn start(range: Vec<String>) -> (r: (ConflictCheck, CheckStep))
        ensures
            r.0@.revisions == path_views(range@),
            r.0@.failed == 0,
            r.0@.wf(),
            range@.len() == 0 ==> r.0@.done && r.1 is UpToDate,
            range@.len() > 0 ==> !r.0@.done && r.1 is Try && r.1->Try_0@ == range@.last()@,
    {
        let n = range.len();
        if n == 0 {
            (ConflictCheck { revisions: range, failed: 0, done: true }, CheckStep::UpToDate)
        } else {
            let newest = range[n - 1].clone();
            (ConflictCheck { revisions: range, failed: 0, done: false }, CheckStep::Try(newest))
        }
    }

    /// Whether the check waits for the conflicting paths of a trial merge.
    pub fn awaits_verdict(&self) -> (r: bool)
        ensures
            r == !self@.done,
    {
        !self.done
    }

    /// Takes the conflicting paths of the trial merge of the revision last asked for. A merge
    /// that may go through ends the check, reporting the revision that failed before it, if
    /// any; a conflict moves on to the next older revision, or ends the check on the oldest.
    pub fn judged(&mut self, conflicts: &Vec<String>, policy: &IgnorePolicy) -> (r: CheckStep)
        requires
            old(self)@.wf(),
            !old(self)@.done,
        ensures
            ({
                let v = old(self)@;
                let n = v.revisions.len() as int;
                let f = v.failed;
                let cs = path_views(conflicts@);
                let blocked = first_blocking(*policy, cs, 0) < cs.len();
                &&& final(self)@.wf()
                &&& final(self)@.revisions == v.revisions
                &&& !blocked ==> {
                    &&& final(self)@.done
                    &&& r is Finished
                    &&& r->lockfile_conflict == cs.contains(lockfile_path())
                    &&& f == 0 ==> r->conflict_on is None
                    &&& f > 0 ==> r->conflict_on is Some && r->conflict_on->Some_0@ == v.revisions[n - f]
                }
                &&& blocked && f + 1 == n ==> {
                    &&& final(self)@.done
                    &&& r is Finished
                    &&& !r->lockfile_conflict
                    &&& r->conflict_on is Some && r->conflict_on->Some_0@ == v.revisions[0]
                }
                &&& blocked && f + 1 < n ==> {
                    &&& !final(self)@.done
                    &&& final(self)@.failed == f + 1
                    &&& r is Try && r->Try_0@ == v.revisions[n - f - 2]
                }
            }),
    {
        let n = self.revisions.len();
        match classify(conflicts, policy) {
            Classification::RealConflict(_) => {
                self.failed = self.failed + 1;
                if self.failed == n {
                    self.done = true;
                    CheckStep::Finished {
                        conflict_on: Some(self.revisions[0].clone()),
                        lockfile_conflict: false,
                    }
                } else {
                    CheckStep::Try(self.revisions[n - self.failed - 1].clone())
                }
            },
            _ => {
                self.done = true;
                let lockfile_conflict = contains_lockfile(conflicts);
                if self.failed == 0 {
                    CheckStep::Finished { conflict_on: None, lockfile_conflict }
                } else {
                    CheckStep::Finished {
                        conflict_on: Some(self.revisions[n - self.failed].clone()),
                        lockfile_conflict,
                    }
                }
            },
        }
    }
}

} // verus!
