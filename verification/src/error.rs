//! Error taxonomy of the watcher.
//!
//! Configuration problems are fatal to construction, acquisition problems are
//! fatal to the observation cycle that hit them, and usage problems (such as
//! asking for a pre-run callback before any state exists) are reported as a
//! named failure instead of a crash. Partial-diff conditions are not errors:
//! the affected branch is simply left out of the change set for that cycle.

use vstd::prelude::*;

verus! {

/// Why an acquisition (clone/fetch of the remote) failed. Produced by the
/// unverified acquisition layer and carried through the watch loop unchanged.
#[derive(Clone, Copy, Debug, PartialEq, Eq, Structural)]
pub enum AcquireFailure {
    /// The remote rejected the supplied credentials.
    AuthFailed,
    /// The repository does not exist at the configured location.
    NotFound,
    /// The remote could not be reached at all.
    NetworkUnreachable,
    /// Any other acquisition failure.
    Other,
}

/// Everything that can go wrong while configuring or running a watcher.
#[derive(Clone, Copy, Debug, PartialEq, Eq, Structural)]
pub enum WatchError {
    /// The repository URL failed to parse.
    InvalidUrl,
    /// A poll interval of zero was supplied; the interval must be positive.
    ZeroPollInterval,
    /// An operation needed an observed state before any observation ran.
    MissingState,
    /// An event was handed to the watch state machine in a phase that cannot
    /// accept it.
    UnexpectedEvent,
    /// One observation cycle failed to acquire a snapshot of the remote.
    Acquire(AcquireFailure),
}

} // verus!
