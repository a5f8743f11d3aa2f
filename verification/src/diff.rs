//! The diff algorithm: classify every freshly read branch head against the
//! previous observation, and plan which changed-path queries the repository
//! provider has to answer for the cycle.
//!
//! The algorithm is pure: it depends only on the previous snapshot and the
//! branch heads handed to it, and branches are classified independently, so
//! their order never affects the result.

use vstd::prelude::*;

use crate::filter::kept_paths;
use crate::heads::has_name;
use crate::heads::head_at;
use crate::heads::BranchHead;
use crate::heads::BranchHeads;
use crate::state::GitRepoState;

verus! {

/// How one branch relates to the previous observation.
#[derive(Clone, Copy, Debug, PartialEq, Eq, Structural)]
pub enum BranchClass {
    /// The branch was not observed before (or nothing was observed at all).
    New,
    /// The branch was observed before with a different head commit.
    Updated,
    /// The branch head is exactly the commit observed before.
    Unchanged,
}

/// One changed-path question for the repository provider.
#[derive(Debug)]
pub enum PathQuery {
    /// The paths touched by `commit_id` itself, relative to its parents:
    /// asked for branches classified as new.
    SingleCommit {
        /// The branch the answer will belong to.
        branch: String,
        /// The head commit of that branch.
        commit_id: String,
    },
    /// The paths that differ between `from_id` and `to_id`, in that
    /// direction: asked for branches classified as updated.
    CommitRange {
        /// The branch the answer will belong to.
        branch: String,
        /// The head observed for this branch in the previous cycle.
        from_id: String,
        /// The head observed now.
        to_id: String,
    },
}

impl PathQuery {
    /// The branch a query asks about.
    pub open spec fn branch_name(self) -> Seq<char> {
        match self {
            PathQuery::SingleCommit { branch, .. } => branch@,
            PathQuery::CommitRange { branch, .. } => branch@,
        }
    }

    /// The branch a query asks about.
    pub fn branch(&self) -> (b: &String)
        ensures
            b@ == self.branch_name(),
    {
        match self {
            PathQuery::SingleCommit { branch, .. } => branch,
            PathQuery::CommitRange { branch, .. } => branch,
        }
    }
}

impl Clone for PathQuery {
    /// Cloning a query preserves it exactly.
    fn clone(&self) -> (r: Self)
        ensures
            r == *self,
    {
        match self {
            PathQuery::SingleCommit { branch, commit_id } => {
                PathQuery::SingleCommit { branch: branch.clone(), commit_id: commit_id.clone() }
            },
            PathQuery::CommitRange { branch, from_id, to_id } => {
                PathQuery::CommitRange {
                    branch: branch.clone(),
                    from_id: from_id.clone(),
                    to_id: to_id.clone(),
                }
            },
        }
    }
}

/// The provider's reply to one [`PathQuery`]: the changed paths, or `None`
/// when the provider could not resolve the question (an unrelated history or
/// a shallow-clone gap) — a recoverable condition, not an error.
#[derive(Debug)]
pub struct PathAnswer {
    /// The branch the queried commit or range belongs to.
    pub branch: String,
    /// The changed paths, or `None` when the range was unresolvable.
    pub paths: Option<Vec<String>>,
}

impl Clone for PathAnswer {
    /// Cloning an answer preserves the branch and the reported paths.
    fn clone(&self) -> (r: Self)
        ensures
            r.branch == self.branch,
            r.paths is Some <==> self.paths is Some,
            r.paths matches Some(v) ==> self.paths matches Some(w) && v@ == w@,
    {
        let paths = match &self.paths {
            Some(w) => {
                let v = w.clone();
                proof {
                    assert forall|i: int| 0 <= i < v@.len() implies v@[i] == w@[i] by {
                        assert(cloned::<String>(w@[i], v@[i]));
                    }
                    assert(v@ =~= w@);
                }
                Some(v)
            },
            None => None,
        };
        PathAnswer { branch: self.branch.clone(), paths }
    }
}

/// The previous snapshot as seen through an optional reference.
pub open spec fn opt_state(previous: Option<&GitRepoState>) -> Option<GitRepoState> {
    match previous {
        Some(p) => Some(*p),
        None => None,
    }
}

/// Classification of one branch, as spec.
///
/// A branch is new when there is no previous snapshot or it carries no entry
/// for the name; unchanged when the previous head has the same commit id;
/// updated otherwise.
pub open spec fn spec_classify(
    previous: Option<GitRepoState>,
    name: Seq<char>,
    current_id: Seq<char>,
) -> BranchClass {
    match previous {
        None => BranchClass::New,
        Some(p) => if !p.branch_heads.contains_name(name) {
            BranchClass::New
        } else if p.branch_heads.head_of(name).id@ == current_id {
            BranchClass::Unchanged
        } else {
            BranchClass::Updated
        },
    }
}

/// The names of the entries that are classified new or updated, in entry
/// order. These are exactly the branches that get a path query and a
/// callback.
pub open spec fn changed_names(previous: Option<GitRepoState>, entries: Seq<BranchHead>) -> Seq<
    Seq<char>,
>
    decreases entries.len(),
{
    if entries.len() == 0 {
        Seq::empty()
    } else {
        let rest = changed_names(previous, entries.drop_last());
        let e = entries.last();
        if spec_classify(previous, e.name@, e.head.id@) is Unchanged {
            rest
        } else {
            rest.push(e.name@)
        }
    }
}

/// The change set that one cycle records, computed from the provider's
/// answers: one entry per answered query, carrying the branch name and the
/// reported paths after the path filter; unanswerable queries contribute
/// nothing.
pub open spec fn spec_alert(answers: Seq<PathAnswer>, filter: Option<Vec<String>>) -> Seq<
    (Seq<char>, Seq<Seq<char>>),
>
    decreases answers.len(),
{
    if answers.len() == 0 {
        Seq::empty()
    } else {
        let rest = spec_alert(answers.drop_last(), filter);
        match answers.last().paths {
            Some(v) => rest.push((answers.last().branch@, kept_paths(v.deep_view(), filter))),
            None => rest,
        }
    }
}

/// Where the changed names come from: every changed name is the name of an
/// entry that is not unchanged, every such entry contributes its name, and
/// with unique entry names the changed names are unique.
pub proof fn lemma_changed_names(previous: Option<GitRepoState>, entries: Seq<BranchHead>)
    ensures
        forall|k: int|
            0 <= k < changed_names(previous, entries).len() ==> exists|i: int|
                0 <= i < entries.len() && (#[trigger] changed_names(previous, entries)[k])
                    == entries[i].name@ && !(spec_classify(
                    previous,
                    entries[i].name@,
                    entries[i].head.id@,
                ) is Unchanged),
        forall|i: int|
            0 <= i < entries.len() && !(spec_classify(
                previous,
                (#[trigger] entries[i]).name@,
                entries[i].head.id@,
            ) is Unchanged) ==> changed_names(previous, entries).contains(entries[i].name@),
        (forall|i: int, j: int|
            0 <= i < j < entries.len() ==> entries[i].name@ != entries[j].name@) ==> (forall|
            k: int,
            l: int,
        |
            0 <= k < l < changed_names(previous, entries).len() ==> changed_names(
                previous,
                entries,
            )[k] != changed_names(previous, entries)[l]),
    decreases entries.len(),
{
    if entries.len() == 0 {
    } else {
        let prefix = entries.drop_last();
        let last = entries.last();
        lemma_changed_names(previous, prefix);
        let c = changed_names(previous, entries);
        let cp = changed_names(previous, prefix);
        assert forall|k: int| 0 <= k < c.len() implies exists|i: int|
            0 <= i < entries.len() && (#[trigger] c[k]) == entries[i].name@ && !(spec_classify(
                previous,
                entries[i].name@,
                entries[i].head.id@,
            ) is Unchanged) by {
            if k < cp.len() {
                let i = choose|i: int|
                    0 <= i < prefix.len() && cp[k] == prefix[i].name@ && !(spec_classify(
                        previous,
                        prefix[i].name@,
                        prefix[i].head.id@,
                    ) is Unchanged);
                assert(entries[i] == prefix[i]);
                assert(c[k] == entries[i].name@);
            } else {
                assert(c[k] == entries[entries.len() - 1].name@);
            }
        }
        assert forall|i: int|
            0 <= i < entries.len() && !(spec_classify(
                previous,
                (#[trigger] entries[i]).name@,
                entries[i].head.id@,
            ) is Unchanged) implies c.contains(entries[i].name@) by {
            if i < prefix.len() {
                assert(prefix[i] == entries[i]);
                let k = choose|k: int| 0 <= k < cp.len() && cp[k] == prefix[i].name@;
                assert(c[k] == entries[i].name@);
            } else {
                assert(c[c.len() - 1] == entries[i].name@);
            }
        }
        if forall|i: int, j: int|
            0 <= i < j < entries.len() ==> entries[i].name@ != entries[j].name@ {
            assert forall|k: int, l: int| 0 <= k < l < c.len() implies c[k] != c[l] by {
                if l < cp.len() {
                } else {
                    let i = choose|i: int|
                        0 <= i < prefix.len() && cp[k] == prefix[i].name@ && !(spec_classify(
                            previous,
                            prefix[i].name@,
                            prefix[i].head.id@,
                        ) is Unchanged);
                    assert(entries[i].name@ != last.name@);
                }
            }
        }
    }
}

/// The branches of the answers that carried paths, in answer order: exactly
/// the branches that the change set will key.
pub open spec fn answered_branches(answers: Seq<PathAnswer>) -> Seq<Seq<char>>
    decreases answers.len(),
{
    if answers.len() == 0 {
        Seq::empty()
    } else {
        let rest = answered_branches(answers.drop_last());
        if answers.last().paths is Some {
            rest.push(answers.last().branch@)
        } else {
            rest
        }
    }
}

/// The change set is keyed exactly by the answered branches, in order.
pub proof fn lemma_alert_branches(answers: Seq<PathAnswer>, filter: Option<Vec<String>>)
    ensures
        spec_alert(answers, filter).map_values(|e: (Seq<char>, Seq<Seq<char>>)| e.0)
            == answered_branches(answers),
    decreases answers.len(),
{
    if answers.len() == 0 {
        assert(spec_alert(answers, filter).map_values(|e: (Seq<char>, Seq<Seq<char>>)| e.0)
            =~= answered_branches(answers));
    } else {
        lemma_alert_branches(answers.drop_last(), filter);
        assert(spec_alert(answers, filter).map_values(|e: (Seq<char>, Seq<Seq<char>>)| e.0)
            =~= answered_branches(answers));
    }
}

/// Where the answered branches come from: every one is the branch of an
/// answer that carried paths, every such answer contributes its branch, and
/// with unique answer branches they are unique.
pub proof fn lemma_answered_branches(answers: Seq<PathAnswer>)
    ensures
        forall|k: int|
            0 <= k < answered_branches(answers).len() ==> exists|i: int|
                0 <= i < answers.len() && answers[i].paths is Some && (#[trigger] answered_branches(
                    answers,
                )[k]) == answers[i].branch@,
        forall|i: int|
            0 <= i < answers.len() && (#[trigger] answers[i]).paths is Some ==> answered_branches(
                answers,
            ).contains(answers[i].branch@),
        (forall|i: int, j: int|
            0 <= i < j < answers.len() ==> answers[i].branch@ != answers[j].branch@) ==> (forall|
            k: int,
            l: int,
        |
            0 <= k < l < answered_branches(answers).len() ==> answered_branches(answers)[k]
                != answered_branches(answers)[l]),
    decreases answers.len(),
{
    if answers.len() == 0 {
    } else {
        let prefix = answers.drop_last();
        let last = answers.last();
        lemma_answered_branches(prefix);
        let c = answered_branches(answers);
        let cp = answered_branches(prefix);
        assert forall|k: int| 0 <= k < c.len() implies exists|i: int|
            0 <= i < answers.len() && answers[i].paths is Some && (#[trigger] c[k]) == answers[
            i
        ].branch@ by {
            if k < cp.len() {
                let i = choose|i: int|
                    0 <= i < prefix.len() && prefix[i].paths is Some && cp[k]
                        == prefix[i].branch@;
                assert(answers[i] == prefix[i]);
                assert(c[k] == cp[k]);
            } else {
                assert(c[k] == answers[answers.len() - 1].branch@);
            }
        }
        assert forall|i: int|
            0 <= i < answers.len() && (#[trigger] answers[i]).paths is Some implies c.contains(
            answers[i].branch@,
        ) by {
            if i < prefix.len() {
                assert(prefix[i] == answers[i]);
                let k = choose|k: int| 0 <= k < cp.len() && cp[k] == prefix[i].branch@;
                assert(c[k] == answers[i].branch@);
            } else {
                assert(c[c.len() - 1] == answers[i].branch@);
            }
        }
        if forall|i: int, j: int|
            0 <= i < j < answers.len() ==> answers[i].branch@ != answers[j].branch@ {
            assert forall|k: int, l: int| 0 <= k < l < c.len() implies c[k] != c[l] by {
                if l < cp.len() {
                } else {
                    let i = choose|i: int|
                        0 <= i < prefix.len() && prefix[i].paths is Some && cp[k]
                            == prefix[i].branch@;
                    assert(answers[i].branch@ != last.branch@);
                }
            }
        }
    }
}

/// What a well-formed query for `heads` looks like: it asks about a branch
/// of `heads` that is not unchanged, a single-commit question for a new
/// branch, and a range question from the previous head to the current one
/// for an updated branch.
pub open spec fn query_ok(
    previous: Option<GitRepoState>,
    entries: Seq<BranchHead>,
    q: PathQuery,
) -> bool {
    let n = q.branch_name();
    &&& has_name(entries, n)
    &&& match spec_classify(previous, n, head_at(entries, n).id@) {
        BranchClass::New => q matches PathQuery::SingleCommit { commit_id, .. } && commit_id@
            == head_at(entries, n).id@,
        BranchClass::Updated => {
            &&& q matches PathQuery::CommitRange { from_id, to_id, .. }
            &&& previous matches Some(p)
            &&& from_id@ == p.branch_heads.head_of(n).id@
            &&& to_id@ == head_at(entries, n).id@
        },
        BranchClass::Unchanged => false,
    }
}

/// Classify one branch against the previous observation.
pub fn classify_branch(previous: Option<&GitRepoState>, name: &String, current_id: &String) -> (c:
    BranchClass)
    requires
        previous matches Some(p) ==> p.wf(),
    ensures
        c == spec_classify(opt_state(previous), name@, current_id@),
{
    match previous {
        None => BranchClass::New,
        Some(p) => match p.branch_heads.get(name) {
            None => BranchClass::New,
            Some(c) => {
                if c.id == *current_id {
                    BranchClass::Unchanged
                } else {
                    BranchClass::Updated
                }
            },
        },
    }
}

/// Plan the changed-path queries for one observation cycle: one query per
/// branch of `heads` that is new or updated against `previous`, in entry
/// order, and none for unchanged branches.
pub fn plan_path_queries(previous: Option<&GitRepoState>, heads: &BranchHeads) -> (qs: Vec<
    PathQuery,
>)
    requires
        heads.wf(),
        previous matches Some(p) ==> p.wf(),
    ensures
        qs@.map_values(|q: PathQuery| q.branch_name()) == changed_names(
            opt_state(previous),
            heads.entries@,
        ),
        forall|k: int|
            0 <= k < qs@.len() ==> query_ok(opt_state(previous), heads.entries@, #[trigger] qs@[k]),
{
    let ghost prev = opt_state(previous);
    let n = heads.entries.len();
    let mut qs: Vec<PathQuery> = Vec::new();
    let mut i: usize = 0;
    while i < n
        invariant
            heads.wf(),
            previous matches Some(p) ==> p.wf(),
            prev == opt_state(previous),
            n == heads.entries@.len(),
            i <= n,
            qs@.map_values(|q: PathQuery| q.branch_name()) == changed_names(
                prev,
                heads.entries@.take(i as int),
            ),
            forall|k: int| 0 <= k < qs@.len() ==> query_ok(prev, heads.entries@, #[trigger] qs@[k]),
        decreases n - i,
    {
        let ghost pre = qs@;
        let e = &heads.entries[i];
        proof {
            heads.lemma_index_of(i as int);
        }
        let c = classify_branch(previous, &e.name, &e.head.id);
        match c {
            BranchClass::Unchanged => {},
            BranchClass::New => {
                qs.push(
                    PathQuery::SingleCommit {
                        branch: e.name.clone(),
                        commit_id: e.head.id.clone(),
                    },
                );
            },
            BranchClass::Updated => {
                let p = match previous {
                    Some(p) => p,
                    None => unreached(),
                };
                let prior = match p.branch_heads.get(&e.name) {
                    Some(prior) => prior,
                    None => unreached(),
                };
                qs.push(
                    PathQuery::CommitRange {
                        branch: e.name.clone(),
                        from_id: prior.id.clone(),
                        to_id: e.head.id.clone(),
                    },
                );
            },
        }
        proof {
            let s = heads.entries@;
            assert(s.take(i + 1).drop_last() =~= s.take(i as int));
            assert(s.take(i + 1).last() == s[i as int]);
            if !(spec_classify(prev, s[i as int].name@, s[i as int].head.id@) is Unchanged) {
                assert(qs@ == pre.push(qs@.last()));
                assert(qs@.map_values(|q: PathQuery| q.branch_name()) =~= pre.map_values(
                    |q: PathQuery| q.branch_name(),
                ).push(s[i as int].name@));
            }
        }
        i += 1;
    }
    proof {
        assert(heads.entries@.take(n as int) =~= heads.entries@);
    }
    qs
}

} // verus!
