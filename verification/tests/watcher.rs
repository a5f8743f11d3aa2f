use git_event::BranchHeads;
use git_event::CommitMeta;
use git_event::GitRepoWatchHandler;
use git_event::PathAnswer;
use git_event::PathQuery;

const URL: &str = "https://github.com/tjtelan/git-event-rs.git";

fn commit(id: &str) -> CommitMeta {
    CommitMeta::new(id.to_string(), None, None)
}

fn heads_of(pairs: &[(&str, &str)]) -> BranchHeads {
    let mut heads = BranchHeads::new();
    for (name, id) in pairs {
        heads.insert(name.to_string(), commit(id));
    }
    heads
}

fn answer_each(queries: &[PathQuery], paths: &[&str]) -> Vec<PathAnswer> {
    queries
        .iter()
        .map(|q| PathAnswer {
            branch: q.branch().clone(),
            paths: Some(paths.iter().map(|p| p.to_string()).collect()),
        })
        .collect()
}

fn alert_paths(state: &git_event::GitRepoState, branch: &str) -> Option<Vec<String>> {
    state.path_alert.get(&branch.to_string()).cloned()
}

#[test]
fn first_observation_reports_every_branch() {
    let mut h = GitRepoWatchHandler::new(URL).unwrap();
    assert!(h.state().is_none());

    let heads = heads_of(&[("main", "c1"), ("dev", "c2")]);
    let queries = h.plan_queries(&heads);
    assert_eq!(queries.len(), 2);
    // no prior state: every branch is new, so both queries ask about a
    // single commit, not a range
    for q in &queries {
        match q {
            PathQuery::SingleCommit { .. } => {}
            PathQuery::CommitRange { .. } => panic!("first observation must not plan range diffs"),
        }
    }

    let answers = answer_each(&queries, &["README.md"]);
    let fired = h.commit_observation(&heads, &answers);
    assert_eq!(fired.len(), 2);
    assert!(fired.contains(&"main".to_string()));
    assert!(fired.contains(&"dev".to_string()));

    let state = h.state().unwrap();
    assert_eq!(state.branch_heads.get(&"main".to_string()).unwrap().id, "c1");
    assert_eq!(state.branch_heads.get(&"dev".to_string()).unwrap().id, "c2");
    assert_eq!(alert_paths(&state, "main").unwrap(), vec!["README.md".to_string()]);
    assert_eq!(alert_paths(&state, "dev").unwrap(), vec!["README.md".to_string()]);
}

#[test]
fn unchanged_branch_is_silent_and_updated_branch_diffs() {
    let mut h = GitRepoWatchHandler::new(URL).unwrap();
    let heads1 = heads_of(&[("main", "c1"), ("dev", "c2")]);
    let queries1 = h.plan_queries(&heads1);
    let answers1 = answer_each(&queries1, &["README.md"]);
    h.commit_observation(&heads1, &answers1);

    // second observation: main unchanged at c1, dev advanced to c3
    let heads2 = heads_of(&[("main", "c1"), ("dev", "c3")]);
    let queries2 = h.plan_queries(&heads2);
    assert_eq!(queries2.len(), 1);
    match &queries2[0] {
        PathQuery::CommitRange { branch, from_id, to_id } => {
            assert_eq!(branch, "dev");
            assert_eq!(from_id, "c2");
            assert_eq!(to_id, "c3");
        }
        PathQuery::SingleCommit { .. } => panic!("an updated branch needs a range diff"),
    }

    let answers2 = answer_each(&queries2, &["src/lib.rs"]);
    let fired = h.commit_observation(&heads2, &answers2);
    // the callback fires exactly once this cycle, for dev
    assert_eq!(fired, vec!["dev".to_string()]);

    let state = h.state().unwrap();
    assert_eq!(state.branch_heads.get(&"main".to_string()).unwrap().id, "c1");
    assert_eq!(state.branch_heads.get(&"dev".to_string()).unwrap().id, "c3");
    assert!(alert_paths(&state, "main").is_none());
    assert_eq!(alert_paths(&state, "dev").unwrap(), vec!["src/lib.rs".to_string()]);
}

#[test]
fn new_branch_gets_single_commit_diff() {
    let mut h = GitRepoWatchHandler::new(URL).unwrap();
    let heads1 = heads_of(&[("main", "c1"), ("dev", "c2")]);
    let q1 = h.plan_queries(&heads1);
    let a1 = answer_each(&q1, &["README.md"]);
    h.commit_observation(&heads1, &a1);

    let heads2 = heads_of(&[("main", "c1"), ("dev", "c2")]);
    let q2 = h.plan_queries(&heads2);
    let a2 = answer_each(&q2, &[]);
    h.commit_observation(&heads2, &a2);

    // cycle 3: branch feature appears with head c4
    let heads3 = heads_of(&[("main", "c1"), ("dev", "c2"), ("feature", "c4")]);
    let queries3 = h.plan_queries(&heads3);
    assert_eq!(queries3.len(), 1);
    match &queries3[0] {
        PathQuery::SingleCommit { branch, commit_id } => {
            assert_eq!(branch, "feature");
            assert_eq!(commit_id, "c4");
        }
        PathQuery::CommitRange { .. } => panic!("a new branch gets the commit's own diff, not a range"),
    }

    let answers3 = answer_each(&queries3, &["feature.rs"]);
    let fired = h.commit_observation(&heads3, &answers3);
    assert_eq!(fired, vec!["feature".to_string()]);
    let state = h.state().unwrap();
    assert_eq!(alert_paths(&state, "feature").unwrap(), vec!["feature.rs".to_string()]);
    assert!(alert_paths(&state, "main").is_none());
    assert!(alert_paths(&state, "dev").is_none());
}

#[test]
fn diff_is_idempotent() {
    // two handlers with the same configuration and the same prior state see
    // the same heads: both cycles classify and report identically
    let mut h1 = GitRepoWatchHandler::new(URL).unwrap();
    let mut h2 = GitRepoWatchHandler::new(URL).unwrap();
    let heads1 = heads_of(&[("main", "c1"), ("dev", "c2")]);
    let q = h1.plan_queries(&heads1);
    let a = answer_each(&q, &["README.md"]);
    h1.commit_observation(&heads1, &a);
    let q = h2.plan_queries(&heads_of(&[("main", "c1"), ("dev", "c2")]));
    let a = answer_each(&q, &["README.md"]);
    h2.commit_observation(&heads_of(&[("main", "c1"), ("dev", "c2")]), &a);

    let heads2 = heads_of(&[("main", "c5"), ("dev", "c2")]);
    let queries_a = h1.plan_queries(&heads2);
    let queries_b = h2.plan_queries(&heads2);
    assert_eq!(queries_a.len(), queries_b.len());
    for (qa, qb) in queries_a.iter().zip(queries_b.iter()) {
        match (qa, qb) {
            (
                PathQuery::SingleCommit { branch: b1, commit_id: c1 },
                PathQuery::SingleCommit { branch: b2, commit_id: c2 },
            ) => {
                assert_eq!(b1, b2);
                assert_eq!(c1, c2);
            }
            (
                PathQuery::CommitRange { branch: b1, from_id: f1, to_id: t1 },
                PathQuery::CommitRange { branch: b2, from_id: f2, to_id: t2 },
            ) => {
                assert_eq!(b1, b2);
                assert_eq!(f1, f2);
                assert_eq!(t1, t2);
            }
            _ => panic!("the two runs classified a branch differently"),
        }
    }

    let answers = answer_each(&queries_a, &["src/lib.rs"]);
    let fired_a = h1.commit_observation(&heads2, &answers);
    let fired_b = h2.commit_observation(&heads_of(&[("main", "c5"), ("dev", "c2")]), &answers);
    assert_eq!(fired_a, fired_b);
    let sa = h1.state().unwrap();
    let sb = h2.state().unwrap();
    assert_eq!(alert_paths(&sa, "main"), alert_paths(&sb, "main"));
    assert_eq!(alert_paths(&sa, "dev"), alert_paths(&sb, "dev"));
}

#[test]
fn branch_filter_excludes_branch_everywhere() {
    let mut h = GitRepoWatchHandler::new(URL)
        .unwrap()
        .with_branch_filter(Some(vec!["dev".to_string()]));
    let heads = heads_of(&[("main", "c1"), ("dev", "c2")]);
    let queries = h.plan_queries(&heads);
    assert_eq!(queries.len(), 1);
    assert_eq!(queries[0].branch(), "main");

    let answers = answer_each(&queries, &["README.md"]);
    let fired = h.commit_observation(&heads, &answers);
    assert_eq!(fired, vec!["main".to_string()]);

    let state = h.state().unwrap();
    assert!(state.branch_heads.get(&"main".to_string()).is_some());
    assert!(state.branch_heads.get(&"dev".to_string()).is_none());
    assert!(alert_paths(&state, "dev").is_none());

    // the filtered branch stays out in every later cycle, even when it moves
    let heads2 = heads_of(&[("main", "c1"), ("dev", "c9")]);
    let queries2 = h.plan_queries(&heads2);
    assert!(queries2.is_empty());
    let fired2 = h.commit_observation(&heads2, &Vec::<PathAnswer>::new());
    assert!(fired2.is_empty());
    assert!(h.state().unwrap().branch_heads.get(&"dev".to_string()).is_none());
}

#[test]
fn path_filter_keeps_only_matching_prefixes() {
    let mut h = GitRepoWatchHandler::new(URL)
        .unwrap()
        .with_path_filter(Some(vec!["src/".to_string()]));
    let heads = heads_of(&[("main", "c1")]);
    let queries = h.plan_queries(&heads);
    let answers = answer_each(&queries, &["src/lib.rs", "docs/guide.md", "src/diff.rs"]);
    h.commit_observation(&heads, &answers);
    let state = h.state().unwrap();
    assert_eq!(
        alert_paths(&state, "main").unwrap(),
        vec!["src/lib.rs".to_string(), "src/diff.rs".to_string()]
    );
}

#[test]
fn unresolvable_answer_omits_branch_without_failing() {
    let mut h = GitRepoWatchHandler::new(URL).unwrap();
    let heads = heads_of(&[("main", "c1"), ("dev", "c2")]);
    let queries = h.plan_queries(&heads);
    // the provider can resolve main but not dev (say, a shallow-clone gap)
    let answers: Vec<PathAnswer> = queries
        .iter()
        .map(|q| PathAnswer {
            branch: q.branch().clone(),
            paths: if q.branch() == "main" { Some(vec!["a.rs".to_string()]) } else { None },
        })
        .collect();
    let fired = h.commit_observation(&heads, &answers);
    // both branches still count as changed and fire
    assert_eq!(fired.len(), 2);
    let state = h.state().unwrap();
    // but only the resolvable one carries a change-set entry
    assert_eq!(alert_paths(&state, "main").unwrap(), vec!["a.rs".to_string()]);
    assert!(alert_paths(&state, "dev").is_none());
    // and the branch head itself is still recorded
    assert_eq!(state.branch_heads.get(&"dev".to_string()).unwrap().id, "c2");
}

#[test]
fn seeded_observation_holds_single_branch() {
    let mut h = GitRepoWatchHandler::new(URL).unwrap();
    h.seed_observation(
        "main".to_string(),
        commit("1699676a8f1704006ed0126164c532978bc284a4"),
        Some(vec!["README.md".to_string()]),
    );
    let state = h.state().unwrap();
    assert_eq!(
        state.branch_heads.get(&"main".to_string()).unwrap().id,
        "1699676a8f1704006ed0126164c532978bc284a4"
    );
    assert_eq!(alert_paths(&state, "main").unwrap(), vec!["README.md".to_string()]);
    assert!(state.last_updated.is_some());
}

#[test]
fn seeded_observation_without_paths_has_empty_change_set() {
    let mut h = GitRepoWatchHandler::new(URL).unwrap();
    h.seed_observation("main".to_string(), commit("c1"), None);
    let state = h.state().unwrap();
    assert!(state.branch_heads.get(&"main".to_string()).is_some());
    assert!(alert_paths(&state, "main").is_none());
}

#[test]
fn empty_observation_is_recorded() {
    let mut h = GitRepoWatchHandler::new(URL).unwrap();
    let heads = BranchHeads::new();
    let queries = h.plan_queries(&heads);
    assert!(queries.is_empty());
    let fired = h.commit_observation(&heads, &Vec::new());
    assert!(fired.is_empty());
    let state = h.state().unwrap();
    assert_eq!(state.branch_heads.len(), 0);
    assert_eq!(state.path_alert.len(), 0);
    assert!(state.last_updated.is_some());
}

#[test]
fn observation_stamps_never_decrease() {
    let mut h = GitRepoWatchHandler::new(URL).unwrap();
    let heads = heads_of(&[("main", "c1")]);
    let q = h.plan_queries(&heads);
    let a = answer_each(&q, &["a.rs"]);
    h.commit_observation(&heads, &a);
    let t1 = h.state().unwrap().last_updated.unwrap();

    let heads2 = heads_of(&[("main", "c2")]);
    let q2 = h.plan_queries(&heads2);
    let a2 = answer_each(&q2, &["a.rs"]);
    h.commit_observation(&heads2, &a2);
    let t2 = h.state().unwrap().last_updated.unwrap();
    assert!(t2 >= t1);
}
