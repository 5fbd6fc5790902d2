//! The records of the relational store, as the core reads them.

pub mod auth_token;
pub mod permissions;
pub mod user;

use vstd::prelude::*;

use crate::common::visibility::Visibility;

verus! {

/// The owner of a post and how widely the post is shown.
#[derive(Debug, PartialEq, Eq)]
pub struct OwnerAndVisibility {
    pub user_id: u64,
    pub visibility: Visibility,
}

} // verus!
