//! Metadata of a single commit.

use vstd::prelude::*;

verus! {

/// Basic information about one commit, as reported by the repository
/// provider. Compared by `id`: equal ids mean the same commit.
#[derive(Debug)]
pub struct CommitMeta {
    /// Content hash of the commit, hex encoded, never empty.
    pub id: String,
    /// The commit message, when the provider reported one.
    pub message: Option<String>,
    /// Commit time as seconds since the Unix epoch, when reported.
    pub timestamp: Option<i64>,
}

impl CommitMeta {
    /// A commit identifier is a non-empty hash.
    pub open spec fn wf(self) -> bool {
        self.id@.len() >= 1
    }

    /// Build a commit record from its parts.
    pub fn new(id: String, message: Option<String>, timestamp: Option<i64>) -> (r: CommitMeta)
        ensures
            r == (CommitMeta { id, message, timestamp }),
    {
        CommitMeta { id, message, timestamp }
    }
}

impl Clone for CommitMeta {
    /// Cloning a commit record preserves it exactly.
    fn clone(&self) -> (r: Self)
        ensures
            r == *self,
    {
        CommitMeta {
            id: self.id.clone(),
            message: match &self.message {
                Some(m) => Some(m.clone()),
                None => None,
            },
            timestamp: self.timestamp,
        }
    }
}

} // verus!
