//! Branch heads: the tip commit of every observed branch at one point in
//! time, kept as a list of uniquely named entries.

use vstd::prelude::*;

use crate::commit::CommitMeta;

verus! {

/// One branch together with its head commit.
#[derive(Debug)]
pub struct BranchHead {
    /// The branch name; never empty.
    pub name: String,
    /// The commit at the tip of the branch.
    pub head: CommitMeta,
}

impl BranchHead {
    /// Branch names are non-empty and the head commit is well formed.
    pub open spec fn wf(self) -> bool {
        &&& self.name@.len() >= 1
        &&& self.head.wf()
    }
}

impl Clone for BranchHead {
    /// Cloning an entry preserves it exactly.
    fn clone(&self) -> (r: Self)
        ensures
            r == *self,
    {
        BranchHead { name: self.name.clone(), head: self.head.clone() }
    }
}

/// The tips of all observed branches at one point in time. Branch names are
/// unique; their order carries no meaning.
#[derive(Debug)]
pub struct BranchHeads {
    /// The entries, one per branch.
    pub entries: Vec<BranchHead>,
}

/// Whether some entry of `entries` carries the branch name `n`.
pub open spec fn has_name(entries: Seq<BranchHead>, n: Seq<char>) -> bool {
    exists|i: int| 0 <= i < entries.len() && entries[i].name@ == n
}

/// The index of the entry of `entries` named `n`, when one exists.
pub open spec fn name_index(entries: Seq<BranchHead>, n: Seq<char>) -> int {
    choose|i: int| 0 <= i < entries.len() && entries[i].name@ == n
}

/// The head commit that `entries` records for the branch named `n`.
pub open spec fn head_at(entries: Seq<BranchHead>, n: Seq<char>) -> CommitMeta {
    entries[name_index(entries, n)].head
}

/// With unique names, looking the name of entry `i` up finds entry `i`.
pub proof fn lemma_name_index(entries: Seq<BranchHead>, i: int)
    requires
        forall|a: int, b: int| 0 <= a < b < entries.len() ==> entries[a].name@ != entries[b].name@,
        0 <= i < entries.len(),
    ensures
        has_name(entries, entries[i].name@),
        name_index(entries, entries[i].name@) == i,
        head_at(entries, entries[i].name@) == entries[i].head,
{
    let n = entries[i].name@;
    assert(has_name(entries, n));
    let j = name_index(entries, n);
    assert(0 <= j < entries.len() && entries[j].name@ == n);
    if i < j {
        assert(entries[i].name@ != entries[j].name@);
    } else if j < i {
        assert(entries[j].name@ != entries[i].name@);
    }
}

impl BranchHeads {
    /// Whether some entry carries the branch name `n`.
    pub open spec fn contains_name(self, n: Seq<char>) -> bool {
        has_name(self.entries@, n)
    }

    /// The index of the entry named `n`, when one exists.
    pub open spec fn index_of(self, n: Seq<char>) -> int {
        name_index(self.entries@, n)
    }

    /// The head commit recorded for the branch named `n`.
    pub open spec fn head_of(self, n: Seq<char>) -> CommitMeta {
        head_at(self.entries@, n)
    }

    /// Entries are well formed and no branch name repeats.
    pub open spec fn wf(self) -> bool {
        &&& forall|i: int, j: int|
            0 <= i < j < self.entries@.len() ==> self.entries@[i].name@ != self.entries@[j].name@
        &&& forall|i: int| 0 <= i < self.entries@.len() ==> (#[trigger] self.entries@[i]).wf()
    }

    /// With unique names, looking the name of entry `i` up finds entry `i`.
    pub proof fn lemma_index_of(self, i: int)
        requires
            self.wf(),
            0 <= i < self.entries@.len(),
        ensures
            self.contains_name(self.entries@[i].name@),
            self.index_of(self.entries@[i].name@) == i,
            self.head_of(self.entries@[i].name@) == self.entries@[i].head,
    {
        lemma_name_index(self.entries@, i);
    }

    /// An empty set of branch heads.
    pub fn new() -> (r: BranchHeads)
        ensures
            r.entries@.len() == 0,
            r.wf(),
    {
        BranchHeads { entries: Vec::new() }
    }

    /// How many branches are recorded.
    pub fn len(&self) -> (n: usize)
        ensures
            n == self.entries@.len(),
    {
        self.entries.len()
    }

    /// The entry at position `i`.
    pub fn entry_at(&self, i: usize) -> (e: &BranchHead)
        requires
            i < self.entries@.len(),
        ensures
            *e == self.entries@[i as int],
    {
        &self.entries[i]
    }

    /// Record a branch that is not yet present.
    pub fn insert(&mut self, name: String, head: CommitMeta)
        requires
            old(self).wf(),
            !old(self).contains_name(name@),
            name@.len() >= 1,
            head.wf(),
        ensures
            final(self).entries@ == old(self).entries@.push((BranchHead { name, head })),
            final(self).wf(),
    {
        let ghost pre = self.entries@;
        self.entries.push(BranchHead { name, head });
        proof {
            assert forall|i: int, j: int|
                0 <= i < j < self.entries@.len() implies self.entries@[i].name@
                != self.entries@[j].name@ by {
                if j == pre.len() {
                    assert(self.entries@[i] == pre[i]);
                }
            }
        }
    }

    /// Look a branch up by name.
    pub fn get(&self, name: &String) -> (r: Option<&CommitMeta>)
        requires
            self.wf(),
        ensures
            match r {
                Some(c) => self.contains_name(name@) && *c == self.head_of(name@),
                None => !self.contains_name(name@),
            },
    {
        let n = self.entries.len();
        let mut i: usize = 0;
        while i < n
            invariant
                self.wf(),
                n == self.entries@.len(),
                i <= n,
                forall|k: int| 0 <= k < i ==> self.entries@[k].name@ != name@,
            decreases n - i,
        {
            if self.entries[i].name == *name {
                proof {
                    let j = self.index_of(name@);
                    assert(0 <= j < self.entries@.len() && self.entries@[j].name@ == name@);
                    assert(j == i);
                }
                return Some(&self.entries[i].head);
            }
            i += 1;
        }
        None
    }
}

impl Clone for BranchHeads {
    /// Cloning preserves every entry exactly.
    fn clone(&self) -> (r: Self)
        ensures
            r.entries@ == self.entries@,
    {
        let entries = self.entries.clone();
        proof {
            assert forall|i: int| 0 <= i < entries@.len() implies entries@[i]
                == self.entries@[i] by {
                assert(cloned::<BranchHead>(self.entries@[i], entries@[i]));
            }
            assert(entries@ =~= self.entries@);
        }
        BranchHeads { entries }
    }
}

} // verus!
