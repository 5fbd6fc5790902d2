//! What anyone can ask for: to sign in.

use vstd::prelude::*;

use super::session::{is_creation, Session, SessionManager};
use super::LoginResponse;
use crate::entities::user::{User, UserModel};
use crate::error::WebsiteError;
use crate::user::session::dyn_session::SessionError;

verus! {

/// The status of an answer that created something.
pub const CREATED: u16 = 201;

/// The status of an answer to a login that was turned down.
pub const UNAUTHORIZED: u16 = 401;

/// A name, or an address, and a password.
#[derive(Debug, PartialEq, Eq)]
pub struct LoginRequest {
    pub username: String,
    pub password: String,
}

/// How a login ended.
#[derive(Debug, PartialEq, Eq)]
pub enum LoginOutcome {
    /// The user is signed in under a new session.
    Created(LoginResponse),
    /// No such account, no password on the account, or the wrong password.
    Unauthorized,
    /// The session store failed.
    Failed(WebsiteError),
}

impl LoginOutcome {
    /// What [`LoginOutcome::status`] gives.
    pub open spec fn spec_status(&self) -> u16 {
        match self {
            LoginOutcome::Created(_) => CREATED,
            LoginOutcome::Unauthorized => UNAUTHORIZED,
            LoginOutcome::Failed(failure) => failure.spec_status_code(),
        }
    }

    /// The status of the answer.
    pub fn status(&self) -> (status: u16)
        ensures
            status == self.spec_status(),
    {
        match self {
            LoginOutcome::Created(_) => CREATED,
            LoginOutcome::Unauthorized => UNAUTHORIZED,
            LoginOutcome::Failed(failure) => failure.status_code(),
        }
    }
}

/// The hash against which the password of a login is to be checked: that of
/// the account found, where one was found and has a password.
pub fn password_to_check(user: &Option<UserModel>) -> (hash: Option<&String>)
    ensures
        hash == match user {
            Some(user) => match &user.password {
                Some(password) => Some(password),
                None => None,
            },
            None => None,
        },
{
    match user {
        Some(user) => match &user.password {
            Some(password) => Some(password),
            None => None,
        },
        None => None,
    }
}

/// Whether a login is let in: an account was found, it has a password, and
/// the password given matched it.
pub open spec fn admits(user: Option<UserModel>, password_matches: bool) -> bool {
    user matches Some(account) && account.password is Some && password_matches
}

/// Signs in the account found for a login, given whether the password
/// matched the account's.
///
/// A login that is let in gets a session with the configured lifetime; the
/// answer carries the account without its password, and the session. A
/// login that is turned down, or a store that fails, leaves the store as it
/// was.
pub fn login<S: SessionManager<Error = SessionError>>(
    user: Option<UserModel>,
    password_matches: bool,
    session_manager: &mut S,
) -> (outcome: LoginOutcome)
    requires
        old(session_manager).wf(),
    ensures
        final(session_manager).wf(),
        final(session_manager).settings() == old(session_manager).settings(),
        match outcome {
            LoginOutcome::Created(response) => {
                &&& admits(user, password_matches)
                &&& response.user == User::spec_from(user->0)
                &&& response.session is Some
                &&& is_creation(
                    old(session_manager).sessions(),
                    response.session->0@,
                    final(session_manager).sessions(),
                    user->0.id,
                    old(session_manager).settings().session_lifetime,
                )
            },
            LoginOutcome::Unauthorized => !admits(user, password_matches) && final(session_manager).sessions() == old(session_manager).sessions(),
            LoginOutcome::Failed(failure) => admits(user, password_matches)
                && failure is SessionError && final(session_manager).sessions() == old(session_manager).sessions(),
        },
{
    let user = match user {
        Some(user) => user,
        None => {
            return LoginOutcome::Unauthorized;
        },
    };
    if user.password.is_none() || !password_matches {
        return LoginOutcome::Unauthorized;
    }
    match session_manager.create_session(user.id) {
        Ok(session) => LoginOutcome::Created(
            LoginResponse { user: User::from(user), session: Some(session) },
        ),
        Err(error) => LoginOutcome::Failed(WebsiteError::from_session_error(error)),
    }
}

} // verus!
