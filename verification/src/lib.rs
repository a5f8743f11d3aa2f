//! Watch remote git repositories for new commits, new branches and changed
//! paths, polling on a fixed interval and reporting each change to a caller
//! supplied handler.

mod changes;
mod commit;
mod credential;
mod diff;
mod error;
mod filter;
mod handler;
mod heads;
mod laws;
mod location;
mod outside;
mod state;
mod watch;

pub use changes::PathChange;
pub use changes::PathChangeSet;
pub use commit::CommitMeta;
pub use credential::Credential;
pub use diff::classify_branch;
pub use diff::plan_path_queries;
pub use diff::BranchClass;
pub use diff::PathAnswer;
pub use diff::PathQuery;
pub use error::AcquireFailure;
pub use error::WatchError;
pub use filter::branch_excluded;
pub use filter::filter_branch_heads;
pub use filter::filter_paths;
pub use filter::path_passes;
pub use filter::starts_with_prefix;
pub use handler::GitRepoWatchHandler;
pub use handler::DEFAULT_POLL_FREQ_MILLIS;
pub use heads::BranchHead;
pub use heads::BranchHeads;
pub use location::url_is_vetted;
pub use location::url_vetted;
pub use outside::url_parses;
pub use outside::with_branch_of;
pub use outside::with_credentials_of;
pub use laws::lemma_changed_branch_reported;
pub use laws::lemma_diff_deterministic;
pub use laws::lemma_filtered_branch_never_observed;
pub use laws::lemma_no_previous_all_new;
pub use laws::lemma_unchanged_branch_silent;
pub use state::GitRepoState;
pub use watch::WatchCommand;
pub use watch::WatchEvent;
pub use watch::WatchPhase;
pub use watch::WatchSession;
