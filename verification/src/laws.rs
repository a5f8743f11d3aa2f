//! Laws of the diff algorithm, stated and proved once and for all inputs.
//!
//! Each law is phrased over the spec functions that the executable
//! functions' contracts are written in: `changed_names` is what the fired
//! list and the query plan equal, `spec_alert` is what the recorded change
//! set equals, and `filtered_entries` is what the stored branch heads equal.

use vstd::prelude::*;

use crate::diff::answered_branches;
use crate::diff::changed_names;
use crate::diff::lemma_alert_branches;
use crate::diff::lemma_answered_branches;
use crate::diff::lemma_changed_names;
use crate::diff::query_ok;
use crate::diff::spec_alert;
use crate::diff::spec_classify;
use crate::diff::PathAnswer;
use crate::diff::PathQuery;
use crate::filter::filtered_entries;
use crate::filter::in_branch_filter;
use crate::filter::lemma_filtered_entries;
use crate::heads::has_name;
use crate::heads::head_at;
use crate::heads::BranchHead;
use crate::state::GitRepoState;

verus! {

/// Law: with no previous snapshot, every branch is classified new, and every
/// branch name is among the changed names — so every branch gets a
/// single-commit query and a callback on the first observation.
pub proof fn lemma_no_previous_all_new(entries: Seq<BranchHead>)
    ensures
        forall|i: int|
            0 <= i < entries.len() ==> spec_classify(
                None,
                (#[trigger] entries[i]).name@,
                entries[i].head.id@,
            ) is New,
        changed_names(None, entries) == entries.map_values(|e: BranchHead| e.name@),
    decreases entries.len(),
{
    if entries.len() == 0 {
        assert(changed_names(None, entries) =~= entries.map_values(|e: BranchHead| e.name@));
    } else {
        lemma_no_previous_all_new(entries.drop_last());
        assert(entries.drop_last().map_values(|e: BranchHead| e.name@) =~= entries.map_values(
            |e: BranchHead| e.name@,
        ).drop_last());
        assert(changed_names(None, entries) =~= entries.map_values(|e: BranchHead| e.name@));
    }
}

/// Law: a branch whose head commit is unchanged is silent. Its name is not
/// among the changed names (the fired list and the query plan equal them, so
/// no callback fires and no query is planned), and the change set built from
/// answers to those queries has no entry keyed by it.
pub proof fn lemma_unchanged_branch_silent(
    previous: Option<GitRepoState>,
    entries: Seq<BranchHead>,
    answers: Seq<PathAnswer>,
    path_filter: Option<Vec<String>>,
    i: int,
)
    requires
        forall|a: int, b: int| 0 <= a < b < entries.len() ==> entries[a].name@ != entries[b].name@,
        0 <= i < entries.len(),
        spec_classify(previous, entries[i].name@, entries[i].head.id@) is Unchanged,
        answers.map_values(|a: PathAnswer| a.branch@) == changed_names(previous, entries),
    ensures
        !changed_names(previous, entries).contains(entries[i].name@),
        forall|k: int|
            0 <= k < spec_alert(answers, path_filter).len() ==> (#[trigger] spec_alert(
                answers,
                path_filter,
            )[k]).0 != entries[i].name@,
{
    let nm = entries[i].name@;
    let c = changed_names(previous, entries);
    lemma_changed_names(previous, entries);
    if c.contains(nm) {
        let k = choose|k: int| 0 <= k < c.len() && c[k] == nm;
        let j = choose|j: int|
            0 <= j < entries.len() && c[k] == entries[j].name@ && !(spec_classify(
                previous,
                entries[j].name@,
                entries[j].head.id@,
            ) is Unchanged);
        if i < j {
            assert(entries[i].name@ != entries[j].name@);
        } else if j < i {
            assert(entries[j].name@ != entries[i].name@);
        }
    }
    lemma_alert_branches(answers, path_filter);
    lemma_answered_branches(answers);
    let al = spec_alert(answers, path_filter);
    let m = answers.map_values(|a: PathAnswer| a.branch@);
    assert forall|k: int| 0 <= k < al.len() implies (#[trigger] al[k]).0 != nm by {
        assert(al.map_values(|e: (Seq<char>, Seq<Seq<char>>)| e.0)[k] == al[k].0);
        let j = choose|j: int|
            0 <= j < answers.len() && answers[j].paths is Some && answered_branches(answers)[k]
                == answers[j].branch@;
        assert(m[j] == answers[j].branch@);
        assert(c[j] == answers[j].branch@);
        if al[k].0 == nm {
            assert(c.contains(nm));
        }
    }
}

/// Law: a branch whose head commit differs from the previous observation is
/// reported. Its name is among the changed names (so it gets a query and a
/// callback), and whenever the provider could resolve the query — its answer
/// carries paths — the change set has an entry keyed by it. Only an
/// unresolvable answer leaves it out.
pub proof fn lemma_changed_branch_reported(
    previous: Option<GitRepoState>,
    entries: Seq<BranchHead>,
    answers: Seq<PathAnswer>,
    path_filter: Option<Vec<String>>,
    i: int,
)
    requires
        0 <= i < entries.len(),
        !(spec_classify(previous, entries[i].name@, entries[i].head.id@) is Unchanged),
        answers.map_values(|a: PathAnswer| a.branch@) == changed_names(previous, entries),
    ensures
        changed_names(previous, entries).contains(entries[i].name@),
        forall|j: int|
            0 <= j < answers.len() && (#[trigger] answers[j]).branch@ == entries[i].name@
                && answers[j].paths is Some ==> exists|k: int|
                0 <= k < spec_alert(answers, path_filter).len() && (#[trigger] spec_alert(
                    answers,
                    path_filter,
                )[k]).0 == entries[i].name@,
{
    lemma_changed_names(previous, entries);
    lemma_alert_branches(answers, path_filter);
    lemma_answered_branches(answers);
    let al = spec_alert(answers, path_filter);
    let ab = answered_branches(answers);
    assert forall|j: int|
        0 <= j < answers.len() && (#[trigger] answers[j]).branch@ == entries[i].name@ && answers[
        j
    ].paths is Some implies exists|k: int|
        0 <= k < al.len() && (#[trigger] al[k]).0 == entries[i].name@ by {
        assert(ab.contains(answers[j].branch@));
        let k = choose|k: int| 0 <= k < ab.len() && ab[k] == answers[j].branch@;
        assert(al.map_values(|e: (Seq<char>, Seq<Seq<char>>)| e.0)[k] == al[k].0);
        assert(al[k].0 == entries[i].name@);
    }
}

/// Law: the diff algorithm is deterministic. Any two query plans that meet
/// the planner's contract for the same previous snapshot and the same
/// entries ask about the same branches in the same order, with the same
/// commit ids in every query.
pub proof fn lemma_diff_deterministic(
    previous: Option<GitRepoState>,
    entries: Seq<BranchHead>,
    qs1: Seq<PathQuery>,
    qs2: Seq<PathQuery>,
)
    requires
        qs1.map_values(|q: PathQuery| q.branch_name()) == changed_names(previous, entries),
        qs2.map_values(|q: PathQuery| q.branch_name()) == changed_names(previous, entries),
        forall|k: int| 0 <= k < qs1.len() ==> query_ok(previous, entries, #[trigger] qs1[k]),
        forall|k: int| 0 <= k < qs2.len() ==> query_ok(previous, entries, #[trigger] qs2[k]),
    ensures
        qs1.len() == qs2.len(),
        forall|k: int|
            0 <= k < qs1.len() ==> (#[trigger] qs1[k]).branch_name() == qs2[k].branch_name(),
        forall|k: int|
            0 <= k < qs1.len() ==> match (#[trigger] qs1[k], qs2[k]) {
                (
                    PathQuery::SingleCommit { commit_id: c1, .. },
                    PathQuery::SingleCommit { commit_id: c2, .. },
                ) => c1@ == c2@,
                (
                    PathQuery::CommitRange { from_id: f1, to_id: t1, .. },
                    PathQuery::CommitRange { from_id: f2, to_id: t2, .. },
                ) => f1@ == f2@ && t1@ == t2@,
                _ => false,
            },
{
    let m1 = qs1.map_values(|q: PathQuery| q.branch_name());
    let m2 = qs2.map_values(|q: PathQuery| q.branch_name());
    assert(qs1.len() == m1.len());
    assert(qs2.len() == m2.len());
    assert forall|k: int| 0 <= k < qs1.len() implies (#[trigger] qs1[k]).branch_name() == qs2[
    k
    ].branch_name() by {
        assert(m1[k] == qs1[k].branch_name());
        assert(m2[k] == qs2[k].branch_name());
    }
    assert forall|k: int| 0 <= k < qs1.len() implies match (#[trigger] qs1[k], qs2[k]) {
        (
            PathQuery::SingleCommit { commit_id: c1, .. },
            PathQuery::SingleCommit { commit_id: c2, .. },
        ) => c1@ == c2@,
        (
            PathQuery::CommitRange { from_id: f1, to_id: t1, .. },
            PathQuery::CommitRange { from_id: f2, to_id: t2, .. },
        ) => f1@ == f2@ && t1@ == t2@,
        _ => false,
    } by {
        assert(m1[k] == qs1[k].branch_name());
        assert(m2[k] == qs2[k].branch_name());
        let n = qs1[k].branch_name();
        assert(query_ok(previous, entries, qs1[k]));
        assert(query_ok(previous, entries, qs2[k]));
        assert(!(spec_classify(previous, n, head_at(entries, n).id@) is Unchanged));
    }
}

/// Law: a branch named by the branch filter survives in no observation. The
/// filtered entries — which every stored snapshot's branch heads equal —
/// never carry its name, and neither do the changed names computed from
/// them, so it is never stored, never queried and never fired for.
pub proof fn lemma_filtered_branch_never_observed(
    previous: Option<GitRepoState>,
    entries: Seq<BranchHead>,
    branch_filter: Option<Vec<String>>,
    n: Seq<char>,
)
    requires
        in_branch_filter(branch_filter, n),
    ensures
        !has_name(filtered_entries(entries, branch_filter), n),
        !changed_names(previous, filtered_entries(entries, branch_filter)).contains(n),
{
    let fe = filtered_entries(entries, branch_filter);
    lemma_filtered_entries(entries, branch_filter);
    assert(!has_name(fe, n));
    lemma_changed_names(previous, fe);
    if changed_names(previous, fe).contains(n) {
        let k = choose|k: int|
            0 <= k < changed_names(previous, fe).len() && changed_names(previous, fe)[k] == n;
        let j = choose|j: int|
            0 <= j < fe.len() && changed_names(previous, fe)[k] == fe[j].name@ && !(spec_classify(
                previous,
                fe[j].name@,
                fe[j].head.id@,
            ) is Unchanged);
        assert(has_name(fe, n));
    }
}

} // verus!
