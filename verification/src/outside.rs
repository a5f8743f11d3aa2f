//! Trusted boundary to the `git_meta`, `color_eyre` and `chrono` crates.
//!
//! Everything in this module either declares an outside type so that it can
//! stand in signatures, or wraps a single outside call. The wrapped calls
//! only parse, set fields or read the clock; the clone and fetch machinery
//! that performs I/O is driven from outside the verified library.

use vstd::prelude::*;

use crate::credential::Credential;
use crate::location::url_vetted;

verus! {

/// `git_meta::GitRepo` carries the parsed remote location, the optional
/// branch, head commit and credentials used by the clone machinery. It is
/// opaque to the verified code, which only threads it through to the
/// acquisition layer.
#[verifier::external_type_specification]
#[verifier::external_body]
pub struct ExGitRepo(git_meta::GitRepo);

/// `git_meta::GitCredentials` is the credential form the clone machinery
/// consumes; [`Credential`] values are converted into it.
#[verifier::external_type_specification]
#[verifier::external_body]
pub struct ExGitCredentials(git_meta::GitCredentials);

/// `color_eyre::Report` is the error that `git_meta`'s constructors return.
#[verifier::external_type_specification]
#[verifier::external_body]
pub struct ExReport(color_eyre::Report);

/// Whether `git_meta::GitRepo::new` accepts the URL text — that is, whether
/// `git_url_parse::GitUrl::parse` succeeds on it. The outcome depends on the
/// text alone.
pub uninterp spec fn url_parses(u: Seq<char>) -> bool;

/// Relies on `git_meta::GitRepo::new`, which parses the URL with
/// `git_url_parse::GitUrl::parse` and performs no I/O: it returns `Ok`
/// exactly when the URL parses. The parser indexes fixed path positions for
/// the organization-in-path hosts (`dev.azure.com`, `ssh.dev.azure.com`) and
/// slices one byte off `ssh` paths, so it panics instead of erring on short
/// forms of those URLs; the vetting required here excludes every input that
/// can reach those spots.
#[verifier::external_body]
pub(crate) fn parse_repo_url(url: &str) -> (r: Result<git_meta::GitRepo, color_eyre::Report>)
    requires
        url_vetted(url@),
    ensures
        r is Ok <==> url_parses(url@),
{
    git_meta::GitRepo::new(url)
}

/// What `git_meta::GitRepo::with_branch` returns for a repository handle and
/// a branch choice; a pure field update, so a function of its arguments.
pub uninterp spec fn with_branch_of(repo: git_meta::GitRepo, branch: Option<Seq<char>>) -> git_meta::GitRepo;

/// Relies on `git_meta::GitRepo::with_branch`, a pure field update: it sets
/// the repository's branch when `branch` is `Some` and keeps the old value
/// when it is `None`; no panic.
#[verifier::external_body]
pub(crate) fn repo_with_branch(repo: git_meta::GitRepo, branch: Option<String>) -> (r:
    git_meta::GitRepo)
    ensures
        r == with_branch_of(repo, branch.deep_view()),
{
    repo.with_branch(branch)
}

/// What `git_meta::GitRepo::with_credentials` returns for a repository
/// handle and the converted form of a library credential; a pure field
/// update over a pure conversion, so a function of its arguments.
pub uninterp spec fn with_credentials_of(
    repo: git_meta::GitRepo,
    creds: Option<Credential>,
) -> git_meta::GitRepo;

/// Relies on `git_meta::GitRepo::with_credentials`, a pure field update that
/// stores the credentials later clones authenticate with; the body only
/// converts the library credential into `git_meta::GitCredentials`, variant
/// for variant, key paths becoming filesystem paths. No panic.
#[verifier::external_body]
pub(crate) fn repo_with_credentials(repo: git_meta::GitRepo, creds: &Option<Credential>) -> (r:
    git_meta::GitRepo)
    ensures
        r == with_credentials_of(repo, *creds),
{
    repo.with_credentials(creds.as_ref().map(|c| match c {
        Credential::SshKey { username, public_key, private_key, passphrase } =>
            git_meta::GitCredentials::SshKey {
                username: username.clone(),
                public_key: public_key.clone().map(std::path::PathBuf::from),
                private_key: std::path::PathBuf::from(private_key.clone()),
                passphrase: passphrase.clone(),
            },
        Credential::UserPassword { username, password } =>
            git_meta::GitCredentials::UserPassPlaintext {
                username: username.clone(),
                password: password.clone(),
            },
    }))
}

/// Relies on `chrono::Utc::now`, which reads the system clock; nothing is
/// promised of the value. It aborts when the system clock reports a time
/// before the Unix epoch — an environmental condition, not reachable from
/// any argument.
#[verifier::external_body]
pub(crate) fn now_epoch_seconds() -> (t: i64) {
    chrono::Utc::now().timestamp()
}

} // verus!
