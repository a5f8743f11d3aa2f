use git_event::AcquireFailure;
use git_event::BranchHeads;
use git_event::CommitMeta;
use git_event::GitRepoWatchHandler;
use git_event::PathAnswer;
use git_event::WatchCommand;
use git_event::WatchError;
use git_event::WatchEvent;
use git_event::WatchPhase;
use git_event::WatchSession;

const URL: &str = "https://github.com/tjtelan/git-event-rs.git";

fn heads_of(pairs: &[(&str, &str)]) -> BranchHeads {
    let mut heads = BranchHeads::new();
    for (name, id) in pairs {
        heads.insert(name.to_string(), CommitMeta::new(id.to_string(), None, None));
    }
    heads
}

fn observed_handler() -> GitRepoWatchHandler {
    let mut h = GitRepoWatchHandler::new(URL).unwrap();
    let heads = heads_of(&[("main", "c1"), ("dev", "c2")]);
    let queries = h.plan_queries(&heads);
    let answers: Vec<PathAnswer> = queries
        .iter()
        .map(|q| PathAnswer { branch: q.branch().clone(), paths: Some(vec!["a.rs".to_string()]) })
        .collect();
    h.commit_observation(&heads, &answers);
    h
}

#[test]
fn watch_cycle_fires_once_per_changed_branch() {
    let mut session = WatchSession::new(observed_handler(), false);

    let cmd = session.step(WatchEvent::Started);
    assert!(matches!(cmd, WatchCommand::Wait { millis: 5000 }));
    assert_eq!(session.phase, WatchPhase::Waiting);

    let cmd = session.step(WatchEvent::WaitElapsed);
    assert!(matches!(cmd, WatchCommand::Acquire));
    assert_eq!(session.phase, WatchPhase::Observing);

    // the remote moved dev to c3; main is unchanged
    let heads = heads_of(&[("main", "c1"), ("dev", "c3")]);
    let queries = session.handler.plan_queries(&heads);
    let answers: Vec<PathAnswer> = queries
        .iter()
        .map(|q| PathAnswer { branch: q.branch().clone(), paths: Some(vec!["b.rs".to_string()]) })
        .collect();
    let cmd = session.step(WatchEvent::SnapshotReady { heads, answers });
    match cmd {
        WatchCommand::NotifyChanges { state, branches } => {
            assert_eq!(branches, vec!["dev".to_string()]);
            assert_eq!(state.branch_heads.get(&"dev".to_string()).unwrap().id, "c3");
        }
        _ => panic!("an evaluated snapshot must lead to notifications"),
    }
    assert_eq!(session.phase, WatchPhase::Notifying);

    let cmd = session.step(WatchEvent::Notified);
    assert!(matches!(cmd, WatchCommand::Wait { millis: 5000 }));
    assert_eq!(session.phase, WatchPhase::Waiting);
}

#[test]
fn acquisition_failure_stops_watch_and_keeps_state() {
    let handler = observed_handler();
    let before = handler.state().unwrap();
    let mut session = WatchSession::new(handler, false);
    session.step(WatchEvent::Started);
    session.step(WatchEvent::WaitElapsed);

    // the network breaks mid-loop: the error propagates and the loop ends
    let cmd = session.step(WatchEvent::AcquireFailed {
        failure: AcquireFailure::NetworkUnreachable,
    });
    match cmd {
        WatchCommand::Stop { error } => {
            assert_eq!(error, WatchError::Acquire(AcquireFailure::NetworkUnreachable));
        }
        _ => panic!("a failed acquisition must stop the session"),
    }
    assert_eq!(session.phase, WatchPhase::Stopped);

    // the stored state keeps its pre-failure value
    let after = session.handler.state().unwrap();
    assert_eq!(after.last_updated, before.last_updated);
    assert_eq!(after.branch_heads.get(&"main".to_string()).unwrap().id, "c1");
    assert_eq!(after.branch_heads.get(&"dev".to_string()).unwrap().id, "c2");
    assert_eq!(
        after.path_alert.get(&"main".to_string()),
        before.path_alert.get(&"main".to_string())
    );
}

#[test]
fn pre_run_without_state_is_a_usage_error() {
    let h = GitRepoWatchHandler::new(URL).unwrap();
    let mut session = WatchSession::new(h, true);
    let cmd = session.step(WatchEvent::Started);
    assert!(matches!(cmd, WatchCommand::Stop { error: WatchError::MissingState }));
    assert_eq!(session.phase, WatchPhase::Stopped);
}

#[test]
fn pre_run_with_state_notifies_current() {
    let mut session = WatchSession::new(observed_handler(), true);
    let cmd = session.step(WatchEvent::Started);
    match cmd {
        WatchCommand::NotifyCurrent { state } => {
            assert_eq!(state.branch_heads.get(&"main".to_string()).unwrap().id, "c1");
        }
        _ => panic!("pre-run must notify with the current state"),
    }
    assert_eq!(session.phase, WatchPhase::Notifying);
    let cmd = session.step(WatchEvent::Notified);
    assert!(matches!(cmd, WatchCommand::Wait { millis: 5000 }));
}

#[test]
fn out_of_order_event_stops_session() {
    let mut session = WatchSession::new(observed_handler(), false);
    // Notified arrives while the session is still idle
    let cmd = session.step(WatchEvent::Notified);
    assert!(matches!(cmd, WatchCommand::Stop { error: WatchError::UnexpectedEvent }));
    assert_eq!(session.phase, WatchPhase::Stopped);
}

#[test]
fn poll_interval_reaches_wait_command() {
    let h = GitRepoWatchHandler::new(URL).unwrap().with_poll_freq(250).unwrap();
    let mut session = WatchSession::new(h, false);
    let cmd = session.step(WatchEvent::Started);
    assert!(matches!(cmd, WatchCommand::Wait { millis: 250 }));
}
