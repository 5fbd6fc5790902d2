//! An account, as handlers see it.

use vstd::prelude::*;

use super::permissions::Permissions;

verus! {

/// An account without its password. Instants are milliseconds since the
/// Unix epoch.
#[derive(Debug, PartialEq, Eq)]
pub struct User {
    pub id: i64,
    pub name: String,
    pub username: String,
    pub email: String,
    pub email_verified: Option<i64>,
    pub permissions: Permissions,
    pub password_changed_at: Option<i64>,
    pub password_reset_required: bool,
    pub banned: bool,
    pub created: i64,
}

impl Clone for User {
    fn clone(&self) -> (copy: Self)
        ensures
            copy == *self,
    {
        User {
            id: self.id,
            name: self.name.clone(),
            username: self.username.clone(),
            email: self.email.clone(),
            email_verified: self.email_verified,
            permissions: self.permissions,
            password_changed_at: self.password_changed_at,
            password_reset_required: self.password_reset_required,
            banned: self.banned,
            created: self.created,
        }
    }
}

/// An account as the relational store keeps it, with the hash of its
/// password where it has one.
#[derive(Debug, PartialEq, Eq)]
pub struct UserModel {
    pub id: i64,
    pub name: String,
    pub username: String,
    pub email: String,
    pub email_verified: Option<i64>,
    pub permissions: Permissions,
    pub password: Option<String>,
    pub password_changed_at: Option<i64>,
    pub password_reset_required: bool,
    pub banned: bool,
    pub created: i64,
}

impl User {
    /// What [`User::from`] keeps of an account: everything but the password.
    pub open spec fn spec_from(user: UserModel) -> User {
        User {
            id: user.id,
            name: user.name,
            username: user.username,
            email: user.email,
            email_verified: user.email_verified,
            permissions: user.permissions,
            password_changed_at: user.password_changed_at,
            password_reset_required: user.password_reset_required,
            banned: user.banned,
            created: user.created,
        }
    }

    /// The account without its password.
    pub fn from(user: UserModel) -> (account: Self)
        ensures
            account == Self::spec_from(user),
    {
        User {
            id: user.id,
            name: user.name,
            username: user.username,
            email: user.email,
            email_verified: user.email_verified,
            permissions: user.permissions,
            password_changed_at: user.password_changed_at,
            password_reset_required: user.password_reset_required,
            banned: user.banned,
            created: user.created,
        }
    }
}

} // verus!
