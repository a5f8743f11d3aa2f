//! Branch and path filters.
//!
//! The branch filter is a deny list: a branch whose name appears in it is
//! skipped before classification and never reaches an observation. The path
//! filter is an allow list of path prefixes: when present, only changed paths
//! starting with one of the configured prefixes are recorded.

use vstd::prelude::*;

use crate::heads::BranchHead;
use crate::heads::BranchHeads;

verus! {

/// Whether the branch filter names `n`.
pub open spec fn in_branch_filter(filter: Option<Vec<String>>, n: Seq<char>) -> bool {
    match filter {
        None => false,
        Some(v) => exists|i: int| 0 <= i < v@.len() && v@[i]@ == n,
    }
}

/// The entries that survive the branch filter, in their original order.
pub open spec fn filtered_entries(entries: Seq<BranchHead>, filter: Option<Vec<String>>) -> Seq<
    BranchHead,
>
    decreases entries.len(),
{
    if entries.len() == 0 {
        Seq::empty()
    } else {
        let rest = filtered_entries(entries.drop_last(), filter);
        if in_branch_filter(filter, entries.last().name@) {
            rest
        } else {
            rest.push(entries.last())
        }
    }
}

/// Whether `pre` is a prefix of `p`.
pub open spec fn is_prefix(pre: Seq<char>, p: Seq<char>) -> bool {
    pre.len() <= p.len() && p.subrange(0, pre.len() as int) == pre
}

/// Whether the path filter lets `p` through: no filter lets everything
/// through, a filter keeps the paths that start with one of its prefixes.
pub open spec fn passes_path_filter(filter: Option<Vec<String>>, p: Seq<char>) -> bool {
    match filter {
        None => true,
        Some(v) => exists|i: int| 0 <= i < v@.len() && is_prefix(v@[i]@, p),
    }
}

/// The paths that survive the path filter, in their original order.
pub open spec fn kept_paths(paths: Seq<Seq<char>>, filter: Option<Vec<String>>) -> Seq<Seq<char>>
    decreases paths.len(),
{
    if paths.len() == 0 {
        Seq::empty()
    } else {
        let rest = kept_paths(paths.drop_last(), filter);
        if passes_path_filter(filter, paths.last()) {
            rest.push(paths.last())
        } else {
            rest
        }
    }
}

/// What surviving the branch filter means, entry by entry: survivors are
/// original entries, none of them is named by the filter, every unfiltered
/// entry survives, and distinct names stay distinct.
pub proof fn lemma_filtered_entries(entries: Seq<BranchHead>, filter: Option<Vec<String>>)
    ensures
        forall|k: int|
            0 <= k < filtered_entries(entries, filter).len() ==> exists|i: int|
                0 <= i < entries.len() && entries[i] == #[trigger] filtered_entries(
                    entries,
                    filter,
                )[k],
        forall|k: int|
            0 <= k < filtered_entries(entries, filter).len() ==> !in_branch_filter(
                filter,
                (#[trigger] filtered_entries(entries, filter)[k]).name@,
            ),
        forall|i: int|
            0 <= i < entries.len() && !in_branch_filter(filter, (#[trigger] entries[i]).name@)
                ==> filtered_entries(entries, filter).contains(entries[i]),
        (forall|i: int, j: int|
            0 <= i < j < entries.len() ==> entries[i].name@ != entries[j].name@) ==> (forall|
            k: int,
            l: int,
        |
            0 <= k < l < filtered_entries(entries, filter).len() ==> filtered_entries(
                entries,
                filter,
            )[k].name@ != filtered_entries(entries, filter)[l].name@),
    decreases entries.len(),
{
    if entries.len() == 0 {
    } else {
        let prefix = entries.drop_last();
        let last = entries.last();
        lemma_filtered_entries(prefix, filter);
        let f = filtered_entries(entries, filter);
        let fp = filtered_entries(prefix, filter);
        assert forall|k: int| 0 <= k < f.len() implies exists|i: int|
            0 <= i < entries.len() && entries[i] == #[trigger] f[k] by {
            if k < fp.len() {
                let i = choose|i: int| 0 <= i < prefix.len() && prefix[i] == fp[k];
                assert(entries[i] == f[k]);
            } else {
                assert(entries[entries.len() - 1] == f[k]);
            }
        }
        assert forall|i: int|
            0 <= i < entries.len() && !in_branch_filter(
                filter,
                (#[trigger] entries[i]).name@,
            ) implies f.contains(entries[i]) by {
            if i < prefix.len() {
                assert(prefix[i] == entries[i]);
                let k = choose|k: int| 0 <= k < fp.len() && fp[k] == prefix[i];
                assert(f.contains(entries[i])) by {
                    if in_branch_filter(filter, last.name@) {
                        assert(f[k] == entries[i]);
                    } else {
                        assert(f[k] == entries[i]);
                    }
                }
            } else {
                assert(f[f.len() - 1] == entries[i]);
            }
        }
        if forall|i: int, j: int|
            0 <= i < j < entries.len() ==> entries[i].name@ != entries[j].name@ {
            assert forall|k: int, l: int| 0 <= k < l < f.len() implies f[k].name@
                != f[l].name@ by {
                if l < fp.len() {
                } else {
                    // l is the appended last entry; k names an entry of the prefix
                    let i = choose|i: int| 0 <= i < prefix.len() && prefix[i] == fp[k];
                    assert(entries[i].name@ != last.name@);
                }
            }
        }
    }
}

/// What surviving the path filter means, path by path.
pub proof fn lemma_kept_paths(paths: Seq<Seq<char>>, filter: Option<Vec<String>>)
    ensures
        forall|k: int|
            0 <= k < kept_paths(paths, filter).len() ==> paths.contains(
                #[trigger] kept_paths(paths, filter)[k],
            ),
        forall|k: int|
            0 <= k < kept_paths(paths, filter).len() ==> passes_path_filter(
                filter,
                #[trigger] kept_paths(paths, filter)[k],
            ),
        forall|i: int|
            0 <= i < paths.len() && passes_path_filter(filter, #[trigger] paths[i]) ==> kept_paths(
                paths,
                filter,
            ).contains(paths[i]),
        filter is None ==> kept_paths(paths, filter) == paths,
    decreases paths.len(),
{
    if paths.len() == 0 {
        assert(kept_paths(paths, filter) =~= paths);
    } else {
        let prefix = paths.drop_last();
        lemma_kept_paths(prefix, filter);
        let f = kept_paths(paths, filter);
        let fp = kept_paths(prefix, filter);
        assert forall|k: int| 0 <= k < f.len() implies paths.contains(#[trigger] f[k]) by {
            if k < fp.len() {
                let i = choose|i: int| 0 <= i < prefix.len() && prefix[i] == fp[k];
                assert(paths[i] == f[k]);
            } else {
                assert(paths[paths.len() - 1] == f[k]);
            }
        }
        assert forall|i: int|
            0 <= i < paths.len() && passes_path_filter(filter, #[trigger] paths[i]) implies f
            .contains(paths[i]) by {
            if i < prefix.len() {
                assert(prefix[i] == paths[i]);
                let k = choose|k: int| 0 <= k < fp.len() && fp[k] == prefix[i];
                assert(f[k] == paths[i]);
            } else {
                assert(f[f.len() - 1] == paths[i]);
            }
        }
        if filter is None {
            assert(kept_paths(paths, filter) =~= paths);
        }
    }
}

/// Whether the branch filter names `name`.
pub fn branch_excluded(filter: &Option<Vec<String>>, name: &String) -> (b: bool)
    ensures
        b == in_branch_filter(*filter, name@),
{
    match filter {
        None => false,
        Some(v) => {
            let n = v.len();
            let mut i: usize = 0;
            while i < n
                invariant
                    *filter is Some && (*filter)->Some_0 == *v,
                    n == v@.len(),
                    i <= n,
                    forall|k: int| 0 <= k < i ==> v@[k]@ != name@,
                decreases n - i,
            {
                if v[i] == *name {
                    proof {
                        assert(*filter is Some && (*filter)->Some_0 == *v);
                        assert(0 <= (i as int) < v@.len() && v@[i as int]@ == name@);
                    }
                    return true;
                }
                i += 1;
            }
            false
        },
    }
}

/// Whether `path` starts with `prefix`, character by character.
pub fn starts_with_prefix(path: &String, prefix: &String) -> (b: bool)
    ensures
        b == is_prefix(prefix@, path@),
{
    let plen = prefix.as_str().unicode_len();
    let slen = path.as_str().unicode_len();
    if plen > slen {
        return false;
    }
    let mut i: usize = 0;
    while i < plen
        invariant
            plen == prefix@.len(),
            slen == path@.len(),
            plen <= slen,
            i <= plen,
            forall|k: int| 0 <= k < i ==> path@[k] == prefix@[k],
        decreases plen - i,
    {
        if path.as_str().get_char(i) != prefix.as_str().get_char(i) {
            proof {
                assert(path@.subrange(0, plen as int)[i as int] == path@[i as int]);
            }
            return false;
        }
        i += 1;
    }
    proof {
        assert(path@.subrange(0, plen as int) =~= prefix@);
    }
    true
}

/// Whether the path filter lets `path` through.
pub fn path_passes(filter: &Option<Vec<String>>, path: &String) -> (b: bool)
    ensures
        b == passes_path_filter(*filter, path@),
{
    match filter {
        None => true,
        Some(v) => {
            let n = v.len();
            let mut i: usize = 0;
            while i < n
                invariant
                    *filter is Some && (*filter)->Some_0 == *v,
                    n == v@.len(),
                    i <= n,
                    forall|k: int| 0 <= k < i ==> !is_prefix(v@[k]@, path@),
                decreases n - i,
            {
                if starts_with_prefix(path, &v[i]) {
                    proof {
                        assert(*filter is Some && (*filter)->Some_0 == *v);
                        assert(0 <= (i as int) < v@.len() && is_prefix(v@[i as int]@, path@));
                    }
                    return true;
                }
                i += 1;
            }
            false
        },
    }
}

/// The branch heads that survive the branch filter, in order.
pub fn filter_branch_heads(heads: &BranchHeads, filter: &Option<Vec<String>>) -> (r: BranchHeads)
    requires
        heads.wf(),
    ensures
        r.entries@ == filtered_entries(heads.entries@, *filter),
        r.wf(),
{
    let n = heads.entries.len();
    let mut out: Vec<BranchHead> = Vec::new();
    let mut i: usize = 0;
    while i < n
        invariant
            heads.wf(),
            n == heads.entries@.len(),
            i <= n,
            out@ == filtered_entries(heads.entries@.take(i as int), *filter),
        decreases n - i,
    {
        if !branch_excluded(filter, &heads.entries[i].name) {
            out.push(heads.entries[i].clone());
        }
        proof {
            let s = heads.entries@;
            assert(s.take(i + 1).drop_last() =~= s.take(i as int));
            assert(s.take(i + 1).last() == s[i as int]);
        }
        i += 1;
    }
    proof {
        assert(heads.entries@.take(n as int) =~= heads.entries@);
        lemma_filtered_entries(heads.entries@, *filter);
        assert forall|a: int| 0 <= a < out@.len() implies (#[trigger] out@[a]).wf() by {
            let i = choose|i: int|
                0 <= i < heads.entries@.len() && heads.entries@[i] == out@[a];
            assert(heads.entries@[i].wf());
        }
    }
    BranchHeads { entries: out }
}

/// The paths of `paths` that the filter lets through, in order.
pub fn filter_paths(paths: &Vec<String>, filter: &Option<Vec<String>>) -> (r: Vec<String>)
    ensures
        r.deep_view() == kept_paths(paths.deep_view(), *filter),
{
    let n = paths.len();
    let mut out: Vec<String> = Vec::new();
    let mut i: usize = 0;
    while i < n
        invariant
            n == paths@.len(),
            i <= n,
            out.deep_view() == kept_paths(paths.deep_view().take(i as int), *filter),
        decreases n - i,
    {
        let ghost pre = out.deep_view();
        if path_passes(filter, &paths[i]) {
            out.push(paths[i].clone());
            proof {
                assert(out.deep_view() =~= pre.push(paths@[i as int]@));
            }
        }
        proof {
            let pd = paths.deep_view();
            assert(pd.take(i + 1).drop_last() =~= pd.take(i as int));
            assert(pd.take(i + 1).last() == paths@[i as int]@);
        }
        i += 1;
    }
    proof {
        assert(paths.deep_view().take(n as int) =~= paths.deep_view());
    }
    out
}

} // verus!
