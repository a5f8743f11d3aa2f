//! Per-branch sets of changed file paths.

use vstd::prelude::*;

verus! {

/// The file paths that changed in one branch since the reference point used
/// for the observation that produced this record.
#[derive(Debug)]
pub struct PathChange {
    /// The branch the paths belong to.
    pub branch: String,
    /// Repository-relative file paths; their order carries no meaning.
    pub paths: Vec<String>,
}

impl PathChange {
    /// The record reduced to its text: the branch name and the paths.
    pub open spec fn model(self) -> (Seq<char>, Seq<Seq<char>>) {
        (self.branch@, self.paths.deep_view())
    }
}

impl Clone for PathChange {
    /// Cloning preserves the branch name and the paths.
    fn clone(&self) -> (r: Self)
        ensures
            r.model() == self.model(),
    {
        let paths = self.paths.clone();
        proof {
            assert forall|i: int| 0 <= i < paths@.len() implies paths@[i] == self.paths@[i] by {
                assert(cloned::<String>(self.paths@[i], paths@[i]));
            }
            assert(paths@ =~= self.paths@);
            assert(paths.deep_view() =~= self.paths.deep_view());
        }
        PathChange { branch: self.branch.clone(), paths }
    }
}

/// Changed paths for every branch that an observation found updated or new,
/// keyed by branch name. Branch names are unique; order carries no meaning.
#[derive(Debug)]
pub struct PathChangeSet {
    /// The entries, one per reported branch.
    pub entries: Vec<PathChange>,
}

impl PathChangeSet {
    /// The whole set reduced to its text, in entry order.
    pub open spec fn model(self) -> Seq<(Seq<char>, Seq<Seq<char>>)> {
        self.entries@.map_values(|e: PathChange| e.model())
    }

    /// Whether some entry is keyed by the branch name `n`.
    pub open spec fn contains_branch(self, n: Seq<char>) -> bool {
        exists|i: int| 0 <= i < self.entries@.len() && self.entries@[i].branch@ == n
    }

    /// The index of the entry for branch `n`, when one exists.
    pub open spec fn index_of(self, n: Seq<char>) -> int {
        choose|i: int| 0 <= i < self.entries@.len() && self.entries@[i].branch@ == n
    }

    /// The changed paths recorded for branch `n`.
    pub open spec fn paths_of(self, n: Seq<char>) -> Seq<Seq<char>> {
        self.entries@[self.index_of(n)].paths.deep_view()
    }

    /// No branch name repeats.
    pub open spec fn wf(self) -> bool {
        forall|i: int, j: int|
            0 <= i < j < self.entries@.len() ==> self.entries@[i].branch@
                != self.entries@[j].branch@
    }

    /// An empty change set.
    pub fn new() -> (r: PathChangeSet)
        ensures
            r.entries@.len() == 0,
            r.model() == Seq::<(Seq<char>, Seq<Seq<char>>)>::empty(),
            r.wf(),
    {
        let r = PathChangeSet { entries: Vec::new() };
        proof {
            assert(r.model() =~= Seq::<(Seq<char>, Seq<Seq<char>>)>::empty());
        }
        r
    }

    /// How many branches carry an entry.
    pub fn len(&self) -> (n: usize)
        ensures
            n == self.entries@.len(),
    {
        self.entries.len()
    }

    /// The entry at position `i`.
    pub fn entry_at(&self, i: usize) -> (e: &PathChange)
        requires
            i < self.entries@.len(),
        ensures
            *e == self.entries@[i as int],
    {
        &self.entries[i]
    }

    /// Record the changed paths of a branch that has no entry yet.
    pub fn push_entry(&mut self, entry: PathChange)
        requires
            old(self).wf(),
            !old(self).contains_branch(entry.branch@),
        ensures
            final(self).entries@ == old(self).entries@.push(entry),
            final(self).model() == old(self).model().push(entry.model()),
            final(self).wf(),
    {
        let ghost pre = self.entries@;
        self.entries.push(entry);
        proof {
            assert forall|i: int, j: int|
                0 <= i < j < self.entries@.len() implies self.entries@[i].branch@
                != self.entries@[j].branch@ by {
                if j == pre.len() {
                    assert(self.entries@[i] == pre[i]);
                }
            }
            assert(self.model() =~= pre.map_values(|e: PathChange| e.model()).push(entry.model()));
        }
    }

    /// Look the changed paths of a branch up by name.
    pub fn get(&self, name: &String) -> (r: Option<&Vec<String>>)
        requires
            self.wf(),
        ensures
            match r {
                Some(p) => self.contains_branch(name@) && p.deep_view() == self.paths_of(name@),
                None => !self.contains_branch(name@),
            },
    {
        let n = self.entries.len();
        let mut i: usize = 0;
        while i < n
            invariant
                self.wf(),
                n == self.entries@.len(),
                i <= n,
                forall|k: int| 0 <= k < i ==> self.entries@[k].branch@ != name@,
            decreases n - i,
        {
            if self.entries[i].branch == *name {
                proof {
                    let j = self.index_of(name@);
                    assert(0 <= j < self.entries@.len() && self.entries@[j].branch@ == name@);
                    assert(j == i);
                }
                return Some(&self.entries[i].paths);
            }
            i += 1;
        }
        None
    }
}

impl Clone for PathChangeSet {
    /// Cloning preserves the recorded text of every entry.
    fn clone(&self) -> (r: Self)
        ensures
            r.model() == self.model(),
            r.wf() == self.wf(),
    {
        let n = self.entries.len();
        let mut entries: Vec<PathChange> = Vec::new();
        let mut i: usize = 0;
        while i < n
            invariant
                n == self.entries@.len(),
                i <= n,
                entries@.len() == i,
                forall|k: int|
                    0 <= k < i ==> (#[trigger] entries@[k]).model() == self.entries@[k].model(),
            decreases n - i,
        {
            entries.push(self.entries[i].clone());
            i += 1;
        }
        let r = PathChangeSet { entries };
        proof {
            assert(r.model() =~= self.model());
            assert forall|a: int, b: int|
                0 <= a < b < r.entries@.len() implies (r.entries@[a].branch@ == self.entries@[
                a
            ].branch@ && r.entries@[b].branch@ == self.entries@[b].branch@) by {
                assert(r.entries@[a].model() == self.entries@[a].model());
                assert(r.entries@[b].model() == self.entries@[b].model());
            }
        }
        r
    }
}

} // verus!
