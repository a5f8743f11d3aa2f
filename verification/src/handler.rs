//! The watch handler: the configuration of one watched repository together
//! with the most recent observation of it.
//!
//! A handler is assembled builder-style, then driven cycle by cycle: the
//! acquisition layer reads branch heads from the remote, asks the handler
//! which changed-path queries to run ([`GitRepoWatchHandler::plan_queries`]),
//! answers them, and hands the answers back
//! ([`GitRepoWatchHandler::commit_observation`]), which stores the new
//! snapshot and says which branches changed.

use vstd::prelude::*;

use crate::changes::PathChange;
use crate::changes::PathChangeSet;
use crate::commit::CommitMeta;
use crate::credential::Credential;
use crate::diff::changed_names;
use crate::diff::lemma_changed_names;
use crate::diff::spec_alert;
use crate::diff::opt_state;
use crate::diff::plan_path_queries;
use crate::diff::query_ok;
use crate::diff::spec_classify;
use crate::diff::PathAnswer;
use crate::diff::PathQuery;
use crate::error::WatchError;
use crate::filter::filter_branch_heads;
use crate::filter::filter_paths;
use crate::filter::filtered_entries;
use crate::filter::in_branch_filter;
use crate::filter::kept_paths;
use crate::filter::lemma_filtered_entries;
use crate::heads::has_name;
use crate::heads::BranchHead;
use crate::heads::BranchHeads;
use crate::location::url_is_vetted;
use crate::location::url_vetted;
use crate::outside::now_epoch_seconds;
use crate::outside::parse_repo_url;
use crate::outside::repo_with_branch;
use crate::outside::repo_with_credentials;
use crate::outside::url_parses;
use crate::outside::with_branch_of;
use crate::outside::with_credentials_of;
use crate::state::GitRepoState;

verus! {

/// The poll interval a fresh handler starts with, in milliseconds.
pub const DEFAULT_POLL_FREQ_MILLIS: u64 = 5000;

/// One watched repository: where it lives, how to reach it, what to skip,
/// how often to look, and the most recent observation.
///
/// Not safe for concurrent mutation from several threads; a handler assumes
/// one active observation loop at a time.
pub struct GitRepoWatchHandler {
    /// The parsed remote repository that the acquisition layer clones.
    pub repo: git_meta::GitRepo,
    /// Credentials for private remotes; `None` means a public repository.
    pub credentials: Option<Credential>,
    /// The most recent observation; absent before the first one.
    pub state: Option<GitRepoState>,
    /// Branch names to exclude from observation; absent observes all.
    pub branch_filter: Option<Vec<String>>,
    /// Path prefixes to keep in change sets; absent keeps all paths.
    pub path_filter: Option<Vec<String>>,
    /// Whether observation clones shallowly (faster, shorter history).
    pub use_shallow: bool,
    /// Milliseconds between observation cycles; always positive.
    pub poll_freq_millis: u64,
}

impl GitRepoWatchHandler {
    /// The poll interval is positive and any stored snapshot is well formed.
    pub open spec fn wf(self) -> bool {
        &&& self.poll_freq_millis >= 1
        &&& (self.state matches Some(s) ==> s.wf())
    }

    /// The stamp of the stored observation, or the smallest stamp when there
    /// is none; observation stamps never decrease below this.
    pub open spec fn last_stamp(self) -> int {
        match self.state {
            Some(s) => match s.last_updated {
                Some(t) => t as int,
                None => i64::MIN as int,
            },
            None => i64::MIN as int,
        }
    }

    /// Same configuration: every field but the stored state agrees.
    pub open spec fn same_config(self, other: Self) -> bool {
        &&& self.repo == other.repo
        &&& self.credentials == other.credentials
        &&& self.branch_filter == other.branch_filter
        &&& self.path_filter == other.path_filter
        &&& self.use_shallow == other.use_shallow
        &&& self.poll_freq_millis == other.poll_freq_millis
    }

    /// Everything but the repository handle agrees.
    pub open spec fn same_apart_from_repo(self, other: Self) -> bool {
        &&& self.credentials == other.credentials
        &&& self.state == other.state
        &&& self.branch_filter == other.branch_filter
        &&& self.path_filter == other.path_filter
        &&& self.use_shallow == other.use_shallow
        &&& self.poll_freq_millis == other.poll_freq_millis
    }

    /// Create a handler for the repository at `url`.
    ///
    /// The URL is vetted and parsed eagerly; a URL that the vetting refuses
    /// (see [`crate::url_is_vetted`]) or that does not parse is a
    /// configuration error and fails construction, and succeeding is owed on
    /// every other URL. A fresh handler has no state, no filters, no
    /// credentials, deep clones, and the default poll interval.
    pub fn new(url: &str) -> (r: Result<Self, WatchError>)
        ensures
            r is Ok <==> url_vetted(url@) && url_parses(url@),
            match r {
                Ok(h) => {
                    &&& h.wf()
                    &&& h.credentials is None
                    &&& h.state is None
                    &&& h.branch_filter is None
                    &&& h.path_filter is None
                    &&& h.use_shallow == false
                    &&& h.poll_freq_millis == DEFAULT_POLL_FREQ_MILLIS
                },
                Err(e) => e == WatchError::InvalidUrl,
            },
    {
        if !url_is_vetted(url) {
            return Err(WatchError::InvalidUrl);
        }
        match parse_repo_url(url) {
            Ok(repo) => Ok(
                GitRepoWatchHandler {
                    repo,
                    credentials: None,
                    state: None,
                    branch_filter: None,
                    path_filter: None,
                    use_shallow: false,
                    poll_freq_millis: DEFAULT_POLL_FREQ_MILLIS,
                },
            ),
            Err(_) => Err(WatchError::InvalidUrl),
        }
    }

    /// Set the branch the repository handle is pinned to; `None` keeps the
    /// current one.
    pub fn with_branch(self, branch: Option<String>) -> (r: Self)
        ensures
            r.repo == with_branch_of(self.repo, branch.deep_view()),
            r.same_apart_from_repo(self),
            self.wf() ==> r.wf(),
    {
        GitRepoWatchHandler {
            repo: repo_with_branch(self.repo, branch),
            credentials: self.credentials,
            state: self.state,
            branch_filter: self.branch_filter,
            path_filter: self.path_filter,
            use_shallow: self.use_shallow,
            poll_freq_millis: self.poll_freq_millis,
        }
    }

    /// Store the credentials that every observation authenticates with;
    /// `None` means a public repository.
    pub fn with_credentials(self, creds: Option<Credential>) -> (r: Self)
        ensures
            r.repo == with_credentials_of(self.repo, creds),
            r.credentials == creds,
            r.state == self.state,
            r.branch_filter == self.branch_filter,
            r.path_filter == self.path_filter,
            r.use_shallow == self.use_shallow,
            r.poll_freq_millis == self.poll_freq_millis,
            self.wf() ==> r.wf(),
    {
        let repo = repo_with_credentials(self.repo, &creds);
        GitRepoWatchHandler {
            repo,
            credentials: creds,
            state: self.state,
            branch_filter: self.branch_filter,
            path_filter: self.path_filter,
            use_shallow: self.use_shallow,
            poll_freq_millis: self.poll_freq_millis,
        }
    }

    /// Set the branch filter: branches named in it are excluded from every
    /// later observation.
    pub fn with_branch_filter(self, branch_list: Option<Vec<String>>) -> (r: Self)
        ensures
            r.branch_filter == branch_list,
            r.repo == self.repo,
            r.credentials == self.credentials,
            r.state == self.state,
            r.path_filter == self.path_filter,
            r.use_shallow == self.use_shallow,
            r.poll_freq_millis == self.poll_freq_millis,
            self.wf() ==> r.wf(),
    {
        GitRepoWatchHandler {
            repo: self.repo,
            credentials: self.credentials,
            state: self.state,
            branch_filter: branch_list,
            path_filter: self.path_filter,
            use_shallow: self.use_shallow,
            poll_freq_millis: self.poll_freq_millis,
        }
    }

    /// Set the path filter: when present, only changed paths that start with
    /// one of the listed prefixes are recorded in later change sets.
    pub fn with_path_filter(self, path_list: Option<Vec<String>>) -> (r: Self)
        ensures
            r.path_filter == path_list,
            r.repo == self.repo,
            r.credentials == self.credentials,
            r.state == self.state,
            r.branch_filter == self.branch_filter,
            r.use_shallow == self.use_shallow,
            r.poll_freq_millis == self.poll_freq_millis,
            self.wf() ==> r.wf(),
    {
        GitRepoWatchHandler {
            repo: self.repo,
            credentials: self.credentials,
            state: self.state,
            branch_filter: self.branch_filter,
            path_filter: path_list,
            use_shallow: self.use_shallow,
            poll_freq_millis: self.poll_freq_millis,
        }
    }

    /// Choose between shallow and deep clones for later observations.
    pub fn with_shallow_clone(self, shallow_choice: bool) -> (r: Self)
        ensures
            r.use_shallow == shallow_choice,
            r.repo == self.repo,
            r.credentials == self.credentials,
            r.state == self.state,
            r.branch_filter == self.branch_filter,
            r.path_filter == self.path_filter,
            r.poll_freq_millis == self.poll_freq_millis,
            self.wf() ==> r.wf(),
    {
        GitRepoWatchHandler {
            repo: self.repo,
            credentials: self.credentials,
            state: self.state,
            branch_filter: self.branch_filter,
            path_filter: self.path_filter,
            use_shallow: shallow_choice,
            poll_freq_millis: self.poll_freq_millis,
        }
    }

    /// Set the poll interval in milliseconds.
    ///
    /// The interval must be positive: zero is a configuration error,
    /// reported eagerly, and the handler is consumed either way.
    pub fn with_poll_freq(self, frequency_millis: u64) -> (r: Result<Self, WatchError>)
        ensures
            match r {
                Ok(h) => {
                    &&& frequency_millis >= 1
                    &&& h.poll_freq_millis == frequency_millis
                    &&& h.repo == self.repo
                    &&& h.credentials == self.credentials
                    &&& h.state == self.state
                    &&& h.branch_filter == self.branch_filter
                    &&& h.path_filter == self.path_filter
                    &&& h.use_shallow == self.use_shallow
                    &&& (self.wf() ==> h.wf())
                },
                Err(e) => frequency_millis == 0 && e == WatchError::ZeroPollInterval,
            },
    {
        if frequency_millis == 0 {
            Err(WatchError::ZeroPollInterval)
        } else {
            Ok(
                GitRepoWatchHandler {
                    repo: self.repo,
                    credentials: self.credentials,
                    state: self.state,
                    branch_filter: self.branch_filter,
                    path_filter: self.path_filter,
                    use_shallow: self.use_shallow,
                    poll_freq_millis: frequency_millis,
                },
            )
        }
    }

    /// A copy of the most recent observation, if one exists.
    pub fn state(&self) -> (r: Option<GitRepoState>)
        ensures
            r is Some <==> self.state is Some,
            r matches Some(s) ==> self.state matches Some(o) && s.equiv(o) && (o.wf() ==> s.wf()),
    {
        match &self.state {
            Some(s) => Some(s.clone()),
            None => None,
        }
    }

    /// The branch heads of the most recent observation, or a missing-state
    /// error when nothing was observed yet.
    pub fn get_branches_snapshot(&self) -> (r: Result<BranchHeads, WatchError>)
        ensures
            match r {
                Ok(h) => self.state matches Some(s) && h.entries@ == s.branch_heads.entries@,
                Err(e) => self.state is None && e == WatchError::MissingState,
            },
    {
        match &self.state {
            Some(s) => Ok(s.branch_heads.clone()),
            None => Err(WatchError::MissingState),
        }
    }

    /// Plan the changed-path queries for freshly read branch heads: the
    /// branch filter is applied first, then every surviving branch that is
    /// new or updated against the stored state gets its query, in order.
    pub fn plan_queries(&self, heads: &BranchHeads) -> (qs: Vec<PathQuery>)
        requires
            self.wf(),
            heads.wf(),
        ensures
            qs@.map_values(|q: PathQuery| q.branch_name()) == changed_names(
                self.state,
                filtered_entries(heads.entries@, self.branch_filter),
            ),
            forall|k: int|
                0 <= k < qs@.len() ==> query_ok(
                    self.state,
                    filtered_entries(heads.entries@, self.branch_filter),
                    #[trigger] qs@[k],
                ),
    {
        let filtered = filter_branch_heads(heads, &self.branch_filter);
        let previous = self.state.as_ref();
        proof {
            assert(opt_state(previous) == self.state);
        }
        plan_path_queries(previous, &filtered)
    }

    /// Whether `answers` correspond, branch for branch and in order, to the
    /// queries that [`Self::plan_queries`] plans for `heads` — exactly what
    /// [`Self::commit_observation`] asks of its caller. An acquisition layer
    /// can test this and fail its cycle instead of committing a mismatched
    /// reply.
    pub fn matches_plan(&self, heads: &BranchHeads, answers: &Vec<PathAnswer>) -> (b: bool)
        requires
            self.wf(),
            heads.wf(),
        ensures
            b == (answers@.map_values(|a: PathAnswer| a.branch@) == changed_names(
                self.state,
                filtered_entries(heads.entries@, self.branch_filter),
            )),
    {
        let ghost cn = changed_names(
            self.state,
            filtered_entries(heads.entries@, self.branch_filter),
        );
        let queries = self.plan_queries(heads);
        let ghost qm = queries@.map_values(|q: PathQuery| q.branch_name());
        let ghost am = answers@.map_values(|a: PathAnswer| a.branch@);
        let n = answers.len();
        if n != queries.len() {
            proof {
                assert(am.len() != cn.len());
            }
            return false;
        }
        let mut i: usize = 0;
        while i < n
            invariant
                n == answers@.len(),
                n == queries@.len(),
                i <= n,
                qm == queries@.map_values(|q: PathQuery| q.branch_name()),
                am == answers@.map_values(|a: PathAnswer| a.branch@),
                cn == changed_names(
                    self.state,
                    filtered_entries(heads.entries@, self.branch_filter),
                ),
                qm == cn,
                forall|k: int| 0 <= k < i ==> am[k] == qm[k],
            decreases n - i,
        {
            if !(answers[i].branch == *queries[i].branch()) {
                proof {
                    assert(am[i as int] == answers@[i as int].branch@);
                    assert(qm[i as int] == queries@[i as int].branch_name());
                }
                return false;
            }
            proof {
                assert(am[i as int] == answers@[i as int].branch@);
                assert(qm[i as int] == queries@[i as int].branch_name());
            }
            i += 1;
        }
        proof {
            assert(am =~= qm);
        }
        true
    }

    /// Store the result of one observation cycle.
    ///
    /// `heads` is what the provider just read from the remote; `answers` are
    /// its replies to exactly the queries that [`Self::plan_queries`] planned
    /// for these heads, in that order. The branch filter is applied to the
    /// heads and the path filter to every answer; the filtered heads, the
    /// change set built from the answers, and a stamp no older than the
    /// previous one become the new stored state. Returns the branches that
    /// changed — the ones a watch callback fires for, each exactly once.
    /// An unanswerable query (paths `None`) leaves its branch out of the
    /// change set without failing the cycle.
    pub fn commit_observation(&mut self, heads: &BranchHeads, answers: &Vec<PathAnswer>) -> (fired:
        Vec<String>)
        requires
            old(self).wf(),
            heads.wf(),
            answers@.map_values(|a: PathAnswer| a.branch@) == changed_names(
                old(self).state,
                filtered_entries(heads.entries@, old(self).branch_filter),
            ),
        ensures
            final(self).wf(),
            final(self).same_config(*old(self)),
            final(self).state is Some,
            final(self).state->Some_0.branch_heads.entries@ == filtered_entries(
                heads.entries@,
                old(self).branch_filter,
            ),
            final(self).state->Some_0.path_alert.model() == spec_alert(
                answers@,
                old(self).path_filter,
            ),
            final(self).state->Some_0.last_updated is Some,
            final(self).state->Some_0.last_updated->0 >= old(self).last_stamp(),
            fired@.map_values(|s: String| s@) == changed_names(
                old(self).state,
                filtered_entries(heads.entries@, old(self).branch_filter),
            ),
            forall|k: int, l: int| 0 <= k < l < fired@.len() ==> fired@[k]@ != fired@[l]@,
            forall|nm: Seq<char>| #[trigger]
                in_branch_filter(old(self).branch_filter, nm)
                    ==> !final(self).state->Some_0.branch_heads.contains_name(nm)
                    && !final(self).state->Some_0.path_alert.contains_branch(nm),
    {
        let ghost prev_state = self.state;
        let ghost bf = self.branch_filter;
        let ghost pf = self.path_filter;
        let ghost fe = filtered_entries(heads.entries@, bf);
        proof {
            lemma_filtered_entries(heads.entries@, bf);
            lemma_changed_names(prev_state, fe);
            assert forall|a: int, b: int|
                0 <= a < b < answers@.len() implies answers@[a].branch@ != answers@[b].branch@ by {
                let m = answers@.map_values(|x: PathAnswer| x.branch@);
                assert(m[a] == answers@[a].branch@);
                assert(m[b] == answers@[b].branch@);
            }
        }
        let filtered = filter_branch_heads(heads, &self.branch_filter);
        let mut alert = PathChangeSet::new();
        let mut fired: Vec<String> = Vec::new();
        let n = answers.len();
        let mut i: usize = 0;
        while i < n
            invariant
                *self == *old(self),
                prev_state == old(self).state,
                bf == old(self).branch_filter,
                pf == old(self).path_filter,
                fe == filtered_entries(heads.entries@, bf),
                n == answers@.len(),
                i <= n,
                forall|a: int, b: int|
                    0 <= a < b < answers@.len() ==> answers@[a].branch@ != answers@[b].branch@,
                fired@.len() == i,
                forall|k: int| 0 <= k < i ==> (#[trigger] fired@[k])@ == answers@[k].branch@,
                alert.model() == spec_alert(answers@.take(i as int), pf),
                alert.wf(),
                forall|b: Seq<char>| #[trigger]
                    alert.contains_branch(b) ==> exists|k: int|
                        0 <= k < i && answers@[k].branch@ == b,
            decreases n - i,
        {
            let a = &answers[i];
            fired.push(a.branch.clone());
            let ghost alert_pre = alert;
            match &a.paths {
                Some(paths) => {
                    let kept = filter_paths(paths, &self.path_filter);
                    proof {
                        if alert.contains_branch(a.branch@) {
                            let k = choose|k: int| 0 <= k < i && answers@[k].branch@ == a.branch@;
                            assert(answers@[k].branch@ != answers@[i as int].branch@);
                        }
                    }
                    alert.push_entry(PathChange { branch: a.branch.clone(), paths: kept });
                },
                None => {},
            }
            proof {
                let s = answers@;
                assert(s.take(i + 1).drop_last() =~= s.take(i as int));
                assert(s.take(i + 1).last() == s[i as int]);
                assert(alert.model() == spec_alert(s.take(i + 1), pf));
                assert forall|b: Seq<char>| #[trigger]
                    alert.contains_branch(b) implies exists|k: int|
                    0 <= k < i + 1 && answers@[k].branch@ == b by {
                    let e = choose|e: int|
                        0 <= e < alert.entries@.len() && alert.entries@[e].branch@ == b;
                    if e < alert_pre.entries@.len() {
                        assert(alert_pre.entries@[e] == alert.entries@[e]);
                        assert(alert_pre.contains_branch(b));
                        let k = choose|k: int| 0 <= k < i && answers@[k].branch@ == b;
                        assert(0 <= k < i + 1 && answers@[k].branch@ == b);
                    } else {
                        assert(answers@[i as int].branch@ == b);
                    }
                }
            }
            i += 1;
        }
        proof {
            assert(answers@.take(n as int) =~= answers@);
            assert(fired@.map_values(|s: String| s@) =~= answers@.map_values(
                |x: PathAnswer| x.branch@,
            ));
        }
        let now = now_epoch_seconds();
        let prev_stamp: i64 = match &self.state {
            Some(s) => match s.last_updated {
                Some(t) => t,
                None => i64::MIN,
            },
            None => i64::MIN,
        };
        let stamp: i64 = if now >= prev_stamp {
            now
        } else {
            prev_stamp
        };
        let new_state = GitRepoState {
            last_updated: Some(stamp),
            branch_heads: filtered,
            path_alert: alert,
        };
        proof {
            let m = answers@.map_values(|x: PathAnswer| x.branch@);
            assert forall|b: Seq<char>| #[trigger]
                new_state.path_alert.contains_branch(b) implies new_state.branch_heads
                .contains_name(b) by {
                let k = choose|k: int| 0 <= k < n && answers@[k].branch@ == b;
                assert(m[k] == b);
                assert(changed_names(prev_state, fe)[k] == b);
                let i2 = choose|i2: int|
                    0 <= i2 < fe.len() && changed_names(prev_state, fe)[k] == fe[i2].name@ && !(
                    spec_classify(prev_state, fe[i2].name@, fe[i2].head.id@) is Unchanged);
                assert(fe[i2].name@ == b);
                assert(has_name(fe, b));
            }
            assert forall|nm: Seq<char>| #[trigger]
                in_branch_filter(bf, nm) implies !new_state.branch_heads.contains_name(nm)
                && !new_state.path_alert.contains_branch(nm) by {
                if new_state.branch_heads.contains_name(nm) {
                    let idx = choose|idx: int| 0 <= idx < fe.len() && fe[idx].name@ == nm;
                    assert(!in_branch_filter(bf, fe[idx].name@));
                }
            }
        }
        self.state = Some(new_state);
        fired
    }

    /// Seed the handler with a single-branch observation, anchored at a
    /// commit the caller resolved: the branch and its head become the whole
    /// branch-head set, and the commit's own changed paths — when they could
    /// be resolved, and after the path filter — its change set.
    pub fn seed_observation(&mut self, branch: String, head: CommitMeta, changed: Option<
        Vec<String>,
    >)
        requires
            old(self).wf(),
            branch@.len() >= 1,
            head.wf(),
        ensures
            final(self).wf(),
            final(self).same_config(*old(self)),
            final(self).state is Some,
            final(self).state->Some_0.branch_heads.entries@ == seq![(BranchHead { name: branch, head })],
            final(self).state->Some_0.path_alert.model() == match changed {
                Some(v) => seq![(branch@, kept_paths(v.deep_view(), old(self).path_filter))],
                None => Seq::<(Seq<char>, Seq<Seq<char>>)>::empty(),
            },
            final(self).state->Some_0.last_updated is Some,
            final(self).state->Some_0.last_updated->0 >= old(self).last_stamp(),
    {
        let mut alert = PathChangeSet::new();
        match &changed {
            Some(paths) => {
                let kept = filter_paths(paths, &self.path_filter);
                alert.push_entry(PathChange { branch: branch.clone(), paths: kept });
            },
            None => {},
        }
        let mut heads = BranchHeads::new();
        heads.insert(branch, head);
        let now = now_epoch_seconds();
        let prev_stamp: i64 = match &self.state {
            Some(s) => match s.last_updated {
                Some(t) => t,
                None => i64::MIN,
            },
            None => i64::MIN,
        };
        let stamp: i64 = if now >= prev_stamp {
            now
        } else {
            prev_stamp
        };
        let new_state = GitRepoState {
            last_updated: Some(stamp),
            branch_heads: heads,
            path_alert: alert,
        };
        proof {
            assert forall|b: Seq<char>| #[trigger]
                new_state.path_alert.contains_branch(b) implies new_state.branch_heads
                .contains_name(b) by {
                assert(new_state.path_alert.entries@[0].branch@ == b);
                assert(new_state.branch_heads.entries@[0].name@ == b);
            }
            match changed {
                Some(v) => {
                    assert(new_state.path_alert.model() =~= seq![
                        (branch@, kept_paths(v.deep_view(), old(self).path_filter)),
                    ]);
                },
                None => {
                    assert(new_state.path_alert.model() =~= Seq::<
                        (Seq<char>, Seq<Seq<char>>),
                    >::empty());
                },
            }
        }
        self.state = Some(new_state);
    }
}

} // verus!
