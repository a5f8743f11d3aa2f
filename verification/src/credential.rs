//! Credentials used to authenticate against a remote repository.
//!
//! A credential is optional on a handler and is passed to the acquisition
//! layer on every clone. Secrets must never reach diagnostic output in full;
//! [`Credential::redacted`] produces a value safe to display.

use vstd::prelude::*;

verus! {

/// Authentication material for a remote repository.
///
/// Key material is referred to by filesystem path, stored here as a plain
/// string; the acquisition layer turns it into an actual path. The type has
/// no `Debug` form on purpose: default diagnostic output must never carry
/// the secrets, so anything printable goes through [`Credential::redacted`].
pub enum Credential {
    /// Authenticate over SSH with a key pair.
    SshKey {
        /// The user to connect as.
        username: String,
        /// Optional path to the public key file.
        public_key: Option<String>,
        /// Path to the private key file.
        private_key: String,
        /// Optional passphrase protecting the private key.
        passphrase: Option<String>,
    },
    /// Authenticate with a plain username and password.
    UserPassword {
        /// The user to connect as.
        username: String,
        /// The password, in the clear.
        password: String,
    },
}

impl Clone for Credential {
    /// Cloning a credential preserves it exactly.
    fn clone(&self) -> (r: Self)
        ensures
            r == *self,
    {
        match self {
            Credential::SshKey { username, public_key, private_key, passphrase } => {
                Credential::SshKey {
                    username: username.clone(),
                    public_key: match public_key {
                        Some(p) => Some(p.clone()),
                        None => None,
                    },
                    private_key: private_key.clone(),
                    passphrase: match passphrase {
                        Some(p) => Some(p.clone()),
                        None => None,
                    },
                }
            },
            Credential::UserPassword { username, password } => {
                Credential::UserPassword { username: username.clone(), password: password.clone() }
            },
        }
    }
}

impl Credential {
    /// A copy of this credential with every secret replaced by a fixed
    /// marker, fit for logs. Usernames and the variant survive; passphrases,
    /// passwords and key paths do not.
    pub fn redacted(&self) -> (r: Credential)
        ensures
            match *self {
                Credential::SshKey { username: ref u, ref passphrase, .. } => {
                    &&& r matches Credential::SshKey {
                        username: ru,
                        public_key: rpub,
                        private_key: rpriv,
                        passphrase: rpass,
                    }
                    &&& ru@ == u@
                    &&& rpub is None
                    &&& rpriv@ == "<redacted>"@
                    &&& (rpass is Some <==> passphrase is Some)
                    &&& (rpass matches Some(p) ==> p@ == "<redacted>"@)
                },
                Credential::UserPassword { username: ref u, .. } => {
                    &&& r matches Credential::UserPassword { username: ru, password: rp }
                    &&& ru@ == u@
                    &&& rp@ == "<redacted>"@
                },
            },
    {
        match self {
            Credential::SshKey { username, passphrase, .. } => Credential::SshKey {
                username: username.clone(),
                public_key: None,
                private_key: "<redacted>".to_owned(),
                passphrase: match passphrase {
                    Some(_) => Some("<redacted>".to_owned()),
                    None => None,
                },
            },
            Credential::UserPassword { username, .. } => Credential::UserPassword {
                username: username.clone(),
                password: "<redacted>".to_owned(),
            },
        }
    }
}

} // verus!
