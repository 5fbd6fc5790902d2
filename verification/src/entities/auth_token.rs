//! A long-lived credential that a user issued to themselves.

use vstd::prelude::*;

verus! {

/// An API token as the relational store keeps it: by the hash of its
/// plaintext, never the plaintext. A revoked token stays on record.
/// `created` is milliseconds since the Unix epoch.
#[derive(Debug, PartialEq, Eq)]
pub struct APIToken {
    pub id: i64,
    pub token_name: String,
    pub token_hash: String,
    pub revoked: bool,
    pub user_id: i64,
    pub created: i64,
}

impl Clone for APIToken {
    fn clone(&self) -> (copy: Self)
        ensures
            copy == *self,
    {
        APIToken {
            id: self.id,
            token_name: self.token_name.clone(),
            token_hash: self.token_hash.clone(),
            revoked: self.revoked,
            user_id: self.user_id,
            created: self.created,
        }
    }
}

/// An API token that is about to be stored: all of a record but the id,
/// which the relational store assigns.
#[derive(Debug, PartialEq, Eq)]
pub struct NewAPIToken {
    pub token_name: String,
    pub token_hash: String,
    pub revoked: bool,
    pub user_id: i64,
    pub created: i64,
}

} // verus!
