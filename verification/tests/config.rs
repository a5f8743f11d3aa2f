use git_event::branch_excluded;
use git_event::classify_branch;
use git_event::path_passes;
use git_event::starts_with_prefix;
use git_event::url_is_vetted;
use git_event::BranchClass;
use git_event::BranchHeads;
use git_event::CommitMeta;
use git_event::Credential;
use git_event::GitRepoWatchHandler;
use git_event::PathAnswer;
use git_event::PathChange;
use git_event::PathChangeSet;
use git_event::WatchError;
use git_event::DEFAULT_POLL_FREQ_MILLIS;

const URL: &str = "https://github.com/tjtelan/git-event-rs.git";

fn commit(id: &str) -> CommitMeta {
    CommitMeta::new(id.to_string(), None, None)
}

#[test]
fn new_handler_defaults() {
    let h = GitRepoWatchHandler::new(URL).unwrap();
    assert!(h.state.is_none());
    assert!(h.credentials.is_none());
    assert!(h.branch_filter.is_none());
    assert!(h.path_filter.is_none());
    assert!(!h.use_shallow);
    assert_eq!(h.poll_freq_millis, DEFAULT_POLL_FREQ_MILLIS);
}

#[test]
fn zero_poll_freq_is_rejected() {
    // configuration fails before any observation occurs
    let r = GitRepoWatchHandler::new(URL).unwrap().with_poll_freq(0);
    match r {
        Err(e) => assert_eq!(e, WatchError::ZeroPollInterval),
        Ok(_) => panic!("a zero poll interval is a configuration error"),
    }
}

#[test]
fn positive_poll_freq_is_stored() {
    let h = GitRepoWatchHandler::new(URL).unwrap().with_poll_freq(1200).unwrap();
    assert_eq!(h.poll_freq_millis, 1200);
}

#[test]
fn builders_set_fields() {
    let h = GitRepoWatchHandler::new(URL)
        .unwrap()
        .with_branch(Some("main".to_string()))
        .with_branch_filter(Some(vec!["gh-pages".to_string()]))
        .with_path_filter(Some(vec!["src/".to_string()]))
        .with_shallow_clone(true);
    assert_eq!(h.branch_filter, Some(vec!["gh-pages".to_string()]));
    assert_eq!(h.path_filter, Some(vec!["src/".to_string()]));
    assert!(h.use_shallow);
}

#[test]
fn invalid_url_is_rejected() {
    // a null byte can never appear in a repository URL
    match GitRepoWatchHandler::new("https://github.com/a/b\u{0}.git") {
        Err(e) => assert_eq!(e, WatchError::InvalidUrl),
        Ok(_) => panic!("a URL with a null byte must not parse"),
    }
}

#[test]
fn organization_host_urls_are_rejected_not_crashed() {
    // short forms of these URLs drive the underlying parser into fixed-index
    // path lookups; the library refuses the whole host family eagerly
    for url in [
        "https://dev.azure.com/a/b",
        "ssh://dev.azure.com/a",
        "git@ssh.dev.azure.com:v3/Company/Project/Repo",
        "https://Company@dev.azure.com/Company/Project/_git/Repo",
        "https://DEV.Azure.COM/a/b",
    ] {
        match GitRepoWatchHandler::new(url) {
            Err(e) => assert_eq!(e, WatchError::InvalidUrl),
            Ok(_) => panic!("organization-host URLs must be rejected eagerly"),
        }
    }
}

#[test]
fn scheme_only_ssh_forms_are_rejected_not_crashed() {
    // the parser slices one byte off ssh paths and can then index an empty
    // segment list; scheme-only ssh forms are refused eagerly
    for url in ["ssh:f", "SSH:repo", "ssh:/x"] {
        match GitRepoWatchHandler::new(url) {
            Err(e) => assert_eq!(e, WatchError::InvalidUrl),
            Ok(_) => panic!("scheme-only ssh forms must be rejected eagerly"),
        }
    }
}

#[test]
fn vetting_keeps_ordinary_urls_and_drops_risky_text() {
    assert!(url_is_vetted("https://github.com/tjtelan/git-event-rs.git"));
    assert!(url_is_vetted("git@github.com:tjtelan/git-event-rs.git"));
    assert!(url_is_vetted("ssh://git@github.com/tjtelan/git-event-rs.git"));
    assert!(!url_is_vetted("https://dev.azure.com/a/b"));
    assert!(!url_is_vetted("https://github.com/a b"));
    assert!(!url_is_vetted("https://github.com/a%20b"));
    assert!(!url_is_vetted("https://github.com/a?x=1"));
    assert!(!url_is_vetted("https://github.com/a#frag"));
    assert!(!url_is_vetted("ssh:foo"));
}

#[test]
fn missing_state_before_first_observation() {
    let h = GitRepoWatchHandler::new(URL).unwrap();
    assert!(h.state().is_none());
    match h.get_branches_snapshot() {
        Err(e) => assert_eq!(e, WatchError::MissingState),
        Ok(_) => panic!("no snapshot exists before the first observation"),
    }
}

#[test]
fn credentials_are_redacted() {
    let c = Credential::UserPassword {
        username: "alice".to_string(),
        password: "SECRET-REDACTED".to_string(),
    };
    match c.redacted() {
        Credential::UserPassword { username, password } => {
            assert_eq!(username, "alice");
            assert_eq!(password, "<redacted>");
        }
        _ => panic!("redaction must keep the variant"),
    }

    let k = Credential::SshKey {
        username: "git".to_string(),
        public_key: Some("/home/alice/.ssh/id_ed25519.pub".to_string()),
        private_key: "/home/alice/.ssh/id_ed25519".to_string(),
        passphrase: Some("SECRET-REDACTED".to_string()),
    };
    match k.redacted() {
        Credential::SshKey { username, public_key, private_key, passphrase } => {
            assert_eq!(username, "git");
            assert!(public_key.is_none());
            assert_eq!(private_key, "<redacted>");
            assert_eq!(passphrase, Some("<redacted>".to_string()));
        }
        _ => panic!("redaction must keep the variant"),
    }
}

#[test]
fn classify_branch_cases() {
    let mut h = GitRepoWatchHandler::new(URL).unwrap();
    let name = "main".to_string();
    assert_eq!(classify_branch(None, &name, &"c1".to_string()), BranchClass::New);

    let mut heads = BranchHeads::new();
    heads.insert("main".to_string(), commit("c1"));
    let queries = h.plan_queries(&heads);
    let answers: Vec<PathAnswer> = queries
        .iter()
        .map(|q| PathAnswer { branch: q.branch().clone(), paths: None })
        .collect();
    h.commit_observation(&heads, &answers);
    let state = h.state().unwrap();

    assert_eq!(classify_branch(Some(&state), &name, &"c1".to_string()), BranchClass::Unchanged);
    assert_eq!(classify_branch(Some(&state), &name, &"c2".to_string()), BranchClass::Updated);
    assert_eq!(
        classify_branch(Some(&state), &"other".to_string(), &"c9".to_string()),
        BranchClass::New
    );
}

#[test]
fn prefix_matching() {
    assert!(starts_with_prefix(&"src/lib.rs".to_string(), &"src/".to_string()));
    assert!(starts_with_prefix(&"src/".to_string(), &"src/".to_string()));
    assert!(!starts_with_prefix(&"docs/lib.rs".to_string(), &"src/".to_string()));
    assert!(!starts_with_prefix(&"sr".to_string(), &"src/".to_string()));

    let filter = Some(vec!["src/".to_string(), "Cargo".to_string()]);
    assert!(path_passes(&filter, &"src/a.rs".to_string()));
    assert!(path_passes(&filter, &"Cargo.toml".to_string()));
    assert!(!path_passes(&filter, &"README.md".to_string()));
    assert!(path_passes(&None, &"anything".to_string()));
}

#[test]
fn branch_filter_membership() {
    let filter = Some(vec!["dev".to_string(), "gh-pages".to_string()]);
    assert!(branch_excluded(&filter, &"dev".to_string()));
    assert!(!branch_excluded(&filter, &"main".to_string()));
    assert!(!branch_excluded(&None, &"dev".to_string()));
}

#[test]
fn branch_heads_insert_and_get() {
    let mut heads = BranchHeads::new();
    assert_eq!(heads.len(), 0);
    heads.insert("main".to_string(), commit("c1"));
    heads.insert("dev".to_string(), commit("c2"));
    assert_eq!(heads.len(), 2);
    assert_eq!(heads.get(&"main".to_string()).unwrap().id, "c1");
    assert_eq!(heads.get(&"dev".to_string()).unwrap().id, "c2");
    assert!(heads.get(&"feature".to_string()).is_none());
    assert_eq!(heads.entry_at(0).name, "main");
}

#[test]
fn path_change_set_lookup() {
    let mut set = PathChangeSet::new();
    assert_eq!(set.len(), 0);
    set.push_entry(PathChange {
        branch: "main".to_string(),
        paths: vec!["a.rs".to_string(), "b.rs".to_string()],
    });
    assert_eq!(set.len(), 1);
    assert_eq!(
        set.get(&"main".to_string()).unwrap(),
        &vec!["a.rs".to_string(), "b.rs".to_string()]
    );
    assert!(set.get(&"dev".to_string()).is_none());
}

#[test]
fn matches_plan_accepts_corresponding_answers() {
    let h = GitRepoWatchHandler::new(URL).unwrap();
    let mut heads = BranchHeads::new();
    heads.insert("main".to_string(), commit("c1"));
    heads.insert("dev".to_string(), commit("c2"));
    let queries = h.plan_queries(&heads);
    let answers: Vec<PathAnswer> = queries
        .iter()
        .map(|q| PathAnswer { branch: q.branch().clone(), paths: None })
        .collect();
    assert!(h.matches_plan(&heads, &answers));

    // wrong length
    assert!(!h.matches_plan(&heads, &answers[..1].to_vec()));
    // wrong branch
    let renamed: Vec<PathAnswer> = answers
        .iter()
        .map(|a| PathAnswer { branch: format!("x{}", a.branch), paths: None })
        .collect();
    assert!(!h.matches_plan(&heads, &renamed));
}

#[test]
fn commit_meta_fields_survive_clone() {
    let c = CommitMeta::new("c1".to_string(), Some("fix build".to_string()), Some(1_700_000_000));
    let d = c.clone();
    assert_eq!(d.id, "c1");
    assert_eq!(d.message, Some("fix build".to_string()));
    assert_eq!(d.timestamp, Some(1_700_000_000));
}
