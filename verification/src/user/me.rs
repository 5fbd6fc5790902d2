//! What a signed-in user can ask about themselves: their session, a way
//! out, and API tokens of their own.

use vstd::prelude::*;

use super::session::{found_view, lookup, Session, SessionManager};
use super::Authentication;
use crate::entities::auth_token::{APIToken, NewAPIToken};
use crate::utils::clock::now_millis;
use crate::utils::sha256::{hash_token, token_hash};
use crate::utils::token::{generate_token, is_token};

verus! {

/// The status of an answer that went well.
pub const OK: u16 = 200;

/// The status of an answer to a request that makes no sense for the caller.
pub const BAD_REQUEST: u16 = 400;

/// The status of an answer about something that is not there.
pub const NOT_FOUND: u16 = 404;

/// The status of an answer when the machinery failed.
pub const INTERNAL_SERVER_ERROR: u16 = 500;

/// The name under which a new token is to be kept.
#[derive(Debug, PartialEq, Eq)]
pub struct CreateTokenRequest {
    pub token_name: String,
}

/// A token that was just issued: the only time its plaintext is shown.
#[derive(Debug, PartialEq, Eq)]
pub struct NewToken {
    pub token_id: i64,
    pub token_value: String,
}

/// The session behind an identity; an identity that a token vouches for has
/// none, which is a bad request.
pub fn get_session(auth: Authentication) -> (answer: Result<Session, u16>)
    ensures
        answer == match auth {
            Authentication::BySession { session, .. } => Ok::<Session, u16>(session),
            Authentication::ByToken { .. } => Err::<Session, u16>(BAD_REQUEST),
        },
{
    match auth {
        Authentication::BySession { session, .. } => Ok(session),
        Authentication::ByToken { .. } => Err(BAD_REQUEST),
    }
}

/// Ends the session behind an identity and gives the status of the answer.
///
/// Only a session can be logged out of. The session is deleted from the
/// store; a store that fails leaves it in place.
pub fn logout<S: SessionManager>(auth: Authentication, session_manager: &mut S) -> (status: u16)
    requires
        old(session_manager).wf(),
    ensures
        final(session_manager).wf(),
        final(session_manager).settings() == old(session_manager).settings(),
        match auth {
            Authentication::ByToken { .. } => status == BAD_REQUEST && final(session_manager).sessions() == old(session_manager).sessions(),
            Authentication::BySession { session, .. } => if status == OK {
                final(session_manager).sessions() == old(session_manager).sessions().remove(
                    session.session_id@,
                )
            } else {
                status == INTERNAL_SERVER_ERROR && final(session_manager).sessions() == old(session_manager).sessions()
            },
        },
{
    match auth {
        Authentication::BySession { session, .. } => {
            match session_manager.delete_session(session.session_id.as_str()) {
                Ok(_) => OK,
                Err(_) => INTERNAL_SERVER_ERROR,
            }
        },
        Authentication::ByToken { .. } => BAD_REQUEST,
    }
}

/// A token on its way into the relational store: its plaintext, which only
/// the caller will see, and the hash under which it will be kept.
#[derive(Debug, PartialEq, Eq)]
pub struct TokenDraft {
    pub token_name: String,
    pub token_value: String,
    pub token_hash: String,
    pub user_id: i64,
}

impl TokenDraft {
    /// The hash is that of the plaintext.
    pub open spec fn wf(&self) -> bool {
        self.token_hash@ == token_hash(self.token_value@)
    }

    /// Drafts a token with the plaintext `token_value` for the user behind
    /// `auth`. Only a session may issue tokens; anything else is a bad
    /// request.
    pub fn with_value(request: CreateTokenRequest, auth: &Authentication, token_value: String) -> (draft:
        Result<TokenDraft, u16>)
        ensures
            match draft {
                Ok(draft) => auth is BySession && draft.wf() && draft.token_name
                    == request.token_name && draft.token_value == token_value && draft.user_id
                    == auth.user().id,
                Err(status) => auth is ByToken && status == BAD_REQUEST,
            },
    {
        if !auth.is_session() {
            return Err(BAD_REQUEST);
        }
        let token_hash = hash_token(token_value.as_str());
        Ok(TokenDraft { token_name: request.token_name, token_value, token_hash, user_id: auth.id() })
    }

    /// Drafts a token with a fresh random plaintext for the user behind
    /// `auth`. Without entropy no token is drafted, which is an internal
    /// error.
    pub fn new(request: CreateTokenRequest, auth: &Authentication) -> (draft: Result<
        TokenDraft,
        u16,
    >)
        ensures
            match draft {
                Ok(draft) => auth is BySession && draft.wf() && is_token(draft.token_value@)
                    && draft.token_name == request.token_name && draft.user_id == auth.user().id,
                Err(status) => if auth is ByToken {
                    status == BAD_REQUEST
                } else {
                    status == INTERNAL_SERVER_ERROR
                },
            },
    {
        if !auth.is_session() {
            return Err(BAD_REQUEST);
        }
        match generate_token() {
            Some(token_value) => TokenDraft::with_value(request, auth, token_value),
            None => Err(INTERNAL_SERVER_ERROR),
        }
    }

    /// What [`TokenDraft::record_at`] decides.
    pub open spec fn spec_record_at(&self, hash_in_use: bool, now: i64) -> Result<NewAPIToken, u16> {
        if hash_in_use {
            Err(INTERNAL_SERVER_ERROR)
        } else {
            Ok(
                NewAPIToken {
                    token_name: self.token_name,
                    token_hash: self.token_hash,
                    revoked: false,
                    user_id: self.user_id,
                    created: now,
                },
            )
        }
    }

    /// The record to store for the draft, created at `now`: the hash, never
    /// the plaintext, and not revoked. A hash that is already on record is a
    /// collision, and an internal error.
    pub fn record_at(&self, hash_in_use: bool, now: i64) -> (record: Result<NewAPIToken, u16>)
        ensures
            record == self.spec_record_at(hash_in_use, now),
    {
        if hash_in_use {
            return Err(INTERNAL_SERVER_ERROR);
        }
        Ok(
            NewAPIToken {
                token_name: self.token_name.clone(),
                token_hash: self.token_hash.clone(),
                revoked: false,
                user_id: self.user_id,
                created: now,
            },
        )
    }

    /// The record to store for the draft, created at the clock's present
    /// reading.
    pub fn record(&self, hash_in_use: bool) -> (record: Result<NewAPIToken, u16>)
        ensures
            exists|now: i64| record == self.spec_record_at(hash_in_use, now),
    {
        let now = now_millis();
        self.record_at(hash_in_use, now)
    }

    /// What the caller is told once the record was stored under `token_id`.
    pub fn issued(self, token_id: i64) -> (token: NewToken)
        ensures
            token == (NewToken { token_id, token_value: self.token_value }),
    {
        NewToken { token_id, token_value: self.token_value }
    }
}

/// What to do about a request to revoke a token.
#[derive(Debug, PartialEq, Eq)]
pub enum Revocation {
    /// There is no such token.
    NotFound,
    /// The token belongs to somebody else.
    NotOwner,
    /// Store this record in place of the token's.
    Revoke(APIToken),
}

impl Revocation {
    /// What [`Revocation::status`] gives.
    pub open spec fn spec_status(&self) -> u16 {
        match self {
            Revocation::NotFound => NOT_FOUND,
            Revocation::NotOwner => BAD_REQUEST,
            Revocation::Revoke(_) => OK,
        }
    }

    /// The status of the answer, once a record to store was stored.
    pub fn status(&self) -> (status: u16)
        ensures
            status == self.spec_status(),
    {
        match self {
            Revocation::NotFound => NOT_FOUND,
            Revocation::NotOwner => BAD_REQUEST,
            Revocation::Revoke(_) => OK,
        }
    }
}

/// What [`revoke_token`] decides.
pub open spec fn spec_revoke_token(token: Option<APIToken>, auth: Authentication) -> Revocation {
    match token {
        None => Revocation::NotFound,
        Some(token) => if token.user_id != auth.user().id {
            Revocation::NotOwner
        } else {
            Revocation::Revoke(
                APIToken {
                    id: token.id,
                    token_name: token.token_name,
                    token_hash: token.token_hash,
                    revoked: true,
                    user_id: token.user_id,
                    created: token.created,
                },
            )
        },
    }
}

/// Decides on a request of the user behind `auth` to revoke `token`, the
/// record found under the id they named. Revoking marks the record and
/// keeps everything else of it.
pub fn revoke_token(token: Option<APIToken>, auth: &Authentication) -> (decision: Revocation)
    ensures
        decision == spec_revoke_token(token, *auth),
{
    match token {
        None => Revocation::NotFound,
        Some(token) => {
            if token.user_id != auth.id() {
                Revocation::NotOwner
            } else {
                Revocation::Revoke(
                    APIToken {
                        id: token.id,
                        token_name: token.token_name,
                        token_hash: token.token_hash,
                        revoked: true,
                        user_id: token.user_id,
                        created: token.created,
                    },
                )
            }
        },
    }
}

} // verus!
