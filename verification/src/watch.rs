//! The watch scheduler, as an explicit state machine.
//!
//! One session drives the cycle `Idle → Waiting → Observing → Notifying →
//! Waiting → …` forever. The machine decides; the caller performs: each
//! [`WatchSession::step`] consumes the event the caller saw (the wait
//! elapsed, a snapshot arrived, the acquisition failed) and returns the next
//! command (wait, acquire, fire the callback, stop). Waiting and acquisition
//! suspend the caller; everything else is immediate. A failed acquisition
//! terminates the session with the error and leaves the stored state exactly
//! as it was before the cycle; the caller owns any restart policy.

use vstd::prelude::*;

use crate::diff::changed_names;
use crate::diff::spec_alert;
use crate::diff::PathAnswer;
use crate::error::AcquireFailure;
use crate::error::WatchError;
use crate::filter::filtered_entries;
use crate::handler::GitRepoWatchHandler;
use crate::heads::BranchHeads;
use crate::state::GitRepoState;

verus! {

/// Where in the observation cycle a session stands.
#[derive(Clone, Copy, Debug, PartialEq, Eq, Structural)]
pub enum WatchPhase {
    /// Created, not yet started.
    Idle,
    /// Suspended until the poll interval elapses.
    Waiting,
    /// An acquisition is in flight.
    Observing,
    /// Callback invocations for the last evaluation are being delivered.
    Notifying,
    /// Terminated; no event is accepted any more.
    Stopped,
}

/// What the caller reports back to the machine.
pub enum WatchEvent {
    /// The session begins.
    Started,
    /// The poll interval elapsed.
    WaitElapsed,
    /// An acquisition finished: freshly read branch heads, and the
    /// provider's answers to exactly the queries planned for them, in order.
    SnapshotReady {
        /// The branch heads read from the remote.
        heads: BranchHeads,
        /// The provider's replies to the planned queries.
        answers: Vec<PathAnswer>,
    },
    /// The acquisition failed.
    AcquireFailed {
        /// Why it failed.
        failure: AcquireFailure,
    },
    /// Every callback invocation for the last evaluation was delivered.
    Notified,
}

impl WatchEvent {
    /// Which events each phase accepts.
    pub open spec fn fits(self, phase: WatchPhase) -> bool {
        match (phase, self) {
            (WatchPhase::Idle, WatchEvent::Started) => true,
            (WatchPhase::Waiting, WatchEvent::WaitElapsed) => true,
            (WatchPhase::Observing, WatchEvent::SnapshotReady { .. }) => true,
            (WatchPhase::Observing, WatchEvent::AcquireFailed { .. }) => true,
            (WatchPhase::Notifying, WatchEvent::Notified) => true,
            _ => false,
        }
    }
}

/// What the caller has to do next.
pub enum WatchCommand {
    /// Suspend for `millis` milliseconds, then report [`WatchEvent::WaitElapsed`].
    Wait {
        /// How long to suspend; always positive.
        millis: u64,
    },
    /// Acquire a snapshot of the remote, then report either
    /// [`WatchEvent::SnapshotReady`] or [`WatchEvent::AcquireFailed`].
    Acquire,
    /// Invoke the callback once with the current state (the pre-run
    /// invocation), then report [`WatchEvent::Notified`].
    NotifyCurrent {
        /// The state to hand to the callback.
        state: GitRepoState,
    },
    /// Invoke the callback once per listed branch, each time with the whole
    /// new state, then report [`WatchEvent::Notified`].
    NotifyChanges {
        /// The state to hand to the callback.
        state: GitRepoState,
        /// The branches found new or updated, each exactly once.
        branches: Vec<String>,
    },
    /// The session is over; the error says why.
    Stop {
        /// What ended the session.
        error: WatchError,
    },
}

/// One run of the watch scheduler over one handler.
pub struct WatchSession {
    /// The handler being watched; its state advances with each evaluation.
    pub handler: GitRepoWatchHandler,
    /// Where in the cycle the session stands.
    pub phase: WatchPhase,
    /// Whether the callback fires once on the stored state before the first
    /// wait. Requires a stored state to exist when the session starts.
    pub pre_run: bool,
}

impl WatchSession {
    /// The underlying handler is well formed.
    pub open spec fn wf(self) -> bool {
        self.handler.wf()
    }

    /// A session over `handler`, not yet started.
    pub fn new(handler: GitRepoWatchHandler, pre_run: bool) -> (s: WatchSession)
        ensures
            s.handler == handler,
            s.phase is Idle,
            s.pre_run == pre_run,
    {
        WatchSession { handler, phase: WatchPhase::Idle, pre_run }
    }

    /// Advance the machine by one event and say what to do next.
    ///
    /// The handler is touched only when a snapshot is evaluated; in
    /// particular a failed acquisition stops the session with the error and
    /// leaves the stored state at its pre-failure value. An event that the
    /// current phase cannot accept stops the session as a usage error.
    pub fn step(&mut self, event: WatchEvent) -> (cmd: WatchCommand)
        requires
            old(self).wf(),
            event matches WatchEvent::SnapshotReady { heads, answers } ==> heads.wf()
                && answers@.map_values(|a: PathAnswer| a.branch@) == changed_names(
                old(self).handler.state,
                filtered_entries(heads.entries@, old(self).handler.branch_filter),
            ),
        ensures
            final(self).wf(),
            final(self).pre_run == old(self).pre_run,
            final(self).handler.same_config(old(self).handler),
            !(old(self).phase is Observing && event is SnapshotReady) ==> final(self).handler
                == old(self).handler,
            old(self).phase is Idle && event is Started && old(self).pre_run && old(self).handler.state is Some ==> final(self).phase is Notifying && (
            cmd matches WatchCommand::NotifyCurrent { state } && state.equiv(
                old(self).handler.state->Some_0,
            )),
            old(self).phase is Idle && event is Started && old(self).pre_run && old(self).handler.state is None ==> final(self).phase is Stopped && cmd == (WatchCommand::Stop {
                error: WatchError::MissingState,
            }),
            old(self).phase is Idle && event is Started && !old(self).pre_run ==> final(self).phase is Waiting && cmd == (WatchCommand::Wait {
                millis: old(self).handler.poll_freq_millis,
            }),
            old(self).phase is Waiting && event is WaitElapsed ==> final(self).phase is Observing
                && cmd is Acquire,
            event matches WatchEvent::SnapshotReady { heads, answers } ==> old(self).phase is Observing
                ==> final(self).phase is Notifying && final(self).handler.state is Some && final(self).handler.state->Some_0.branch_heads.entries@ == filtered_entries(
                heads.entries@,
                old(self).handler.branch_filter,
            ) && final(self).handler.state->Some_0.path_alert.model() == spec_alert(
                answers@,
                old(self).handler.path_filter,
            ) && final(self).handler.state->Some_0.last_updated is Some && final(self).handler.state->Some_0.last_updated->0 >= old(self).handler.last_stamp() && (
            cmd matches WatchCommand::NotifyChanges { state, branches } && state.equiv(
                final(self).handler.state->Some_0,
            ) && branches@.map_values(|s: String| s@) == changed_names(
                old(self).handler.state,
                filtered_entries(heads.entries@, old(self).handler.branch_filter),
            ) && (forall|k: int, l: int|
                0 <= k < l < branches@.len() ==> branches@[k]@ != branches@[l]@)),
            event matches WatchEvent::AcquireFailed { failure } ==> old(self).phase is Observing
                ==> final(self).phase is Stopped && final(self).handler == old(self).handler && cmd
                == (WatchCommand::Stop { error: WatchError::Acquire(failure) }),
            old(self).phase is Notifying && event is Notified ==> final(self).phase is Waiting
                && cmd == (WatchCommand::Wait { millis: old(self).handler.poll_freq_millis }),
            !event.fits(old(self).phase) ==> final(self).phase is Stopped && final(self).handler
                == old(self).handler && cmd == (WatchCommand::Stop {
                error: WatchError::UnexpectedEvent,
            }),
    {
        match (self.phase, event) {
            (WatchPhase::Idle, WatchEvent::Started) => {
                if self.pre_run {
                    match self.handler.state() {
                        Some(state) => {
                            self.phase = WatchPhase::Notifying;
                            WatchCommand::NotifyCurrent { state }
                        },
                        None => {
                            self.phase = WatchPhase::Stopped;
                            WatchCommand::Stop { error: WatchError::MissingState }
                        },
                    }
                } else {
                    self.phase = WatchPhase::Waiting;
                    WatchCommand::Wait { millis: self.handler.poll_freq_millis }
                }
            },
            (WatchPhase::Waiting, WatchEvent::WaitElapsed) => {
                self.phase = WatchPhase::Observing;
                WatchCommand::Acquire
            },
            (WatchPhase::Observing, WatchEvent::SnapshotReady { heads, answers }) => {
                let branches = self.handler.commit_observation(&heads, &answers);
                let state = match self.handler.state() {
                    Some(state) => state,
                    None => unreached(),
                };
                self.phase = WatchPhase::Notifying;
                WatchCommand::NotifyChanges { state, branches }
            },
            (WatchPhase::Observing, WatchEvent::AcquireFailed { failure }) => {
                self.phase = WatchPhase::Stopped;
                WatchCommand::Stop { error: WatchError::Acquire(failure) }
            },
            (WatchPhase::Notifying, WatchEvent::Notified) => {
                self.phase = WatchPhase::Waiting;
                WatchCommand::Wait { millis: self.handler.poll_freq_millis }
            },
            _ => {
                self.phase = WatchPhase::Stopped;
                WatchCommand::Stop { error: WatchError::UnexpectedEvent }
            },
        }
    }
}

} // verus!
