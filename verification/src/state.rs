//! The atomic unit of observation: one immutable snapshot of a repository.

use vstd::prelude::*;

use crate::changes::PathChangeSet;
use crate::heads::BranchHeads;

verus! {

/// One observation of a repository: when it was taken, the tip of every
/// observed branch, and the paths that changed per branch relative to the
/// observation before it. Immutable once constructed.
#[derive(Debug)]
pub struct GitRepoState {
    /// When the observation was taken, as seconds since the Unix epoch.
    pub last_updated: Option<i64>,
    /// The tip commit of every observed branch.
    pub branch_heads: BranchHeads,
    /// Changed paths, keyed by branch; only branches found new or updated
    /// carry an entry, so every key here also names a branch head.
    pub path_alert: PathChangeSet,
}

impl GitRepoState {
    /// Heads and change set are well formed, and every branch in the change
    /// set is an observed branch of this same snapshot.
    pub open spec fn wf(self) -> bool {
        &&& self.branch_heads.wf()
        &&& self.path_alert.wf()
        &&& forall|n: Seq<char>|
            #[trigger] self.path_alert.contains_branch(n) ==> self.branch_heads.contains_name(n)
    }

    /// Two snapshots carry the same observation: same stamp, same branch
    /// heads, and change sets with the same text.
    pub open spec fn equiv(self, other: GitRepoState) -> bool {
        &&& self.last_updated == other.last_updated
        &&& self.branch_heads.entries@ == other.branch_heads.entries@
        &&& self.path_alert.model() == other.path_alert.model()
    }
}

impl Clone for GitRepoState {
    /// Cloning yields the same observation.
    fn clone(&self) -> (r: Self)
        ensures
            r.equiv(*self),
            self.wf() ==> r.wf(),
    {
        let r = GitRepoState {
            last_updated: self.last_updated,
            branch_heads: self.branch_heads.clone(),
            path_alert: self.path_alert.clone(),
        };
        proof {
            if self.wf() {
                assert forall|a: int, b: int|
                    0 <= a < b < r.path_alert.entries@.len() implies r.path_alert.entries@[
                    a
                ].branch@ != r.path_alert.entries@[b].branch@ by {
                    assert(r.path_alert.model()[a] == self.path_alert.model()[a]);
                    assert(r.path_alert.model()[b] == self.path_alert.model()[b]);
                }
                assert forall|n: Seq<char>| #[trigger]
                    r.path_alert.contains_branch(n) implies r.branch_heads.contains_name(n) by {
                    let i = choose|i: int|
                        0 <= i < r.path_alert.entries@.len() && r.path_alert.entries@[i].branch@
                            == n;
                    assert(r.path_alert.model().len() == self.path_alert.model().len());
                    assert(r.path_alert.model()[i] == r.path_alert.entries@[i].model());
                    assert(self.path_alert.model()[i] == self.path_alert.entries@[i].model());
                    assert(self.path_alert.entries@[i].branch@ == n);
                    assert(self.path_alert.contains_branch(n));
                }
            }
        }
        r
    }
}

} // verus!
