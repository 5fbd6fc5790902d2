//! Identities: the credentials a request carries and what they resolve to.

pub mod me;
pub mod middleware;
pub mod public;
pub mod session;

use vstd::prelude::*;

use crate::entities::auth_token::APIToken;
use crate::entities::permissions::Permissions;
use crate::entities::user::User;
use crate::error::WebsiteError;
use crate::user::session::Session;
use crate::utils::clock::now_millis;
use crate::utils::sha256::{hash_token, token_hash};
use crate::utils::text::str_equals;

verus! {

/// Evidence of identity as a request supplied it, before any lookup:
/// the id of a browser session or the plaintext of an API token.
#[derive(Debug, PartialEq, Eq)]
pub enum AuthenticationRaw {
    SessionCookie(String),
    BearerToken(String),
}

/// A raw credential as plain values.
pub enum AuthenticationRawView {
    SessionCookie(Seq<char>),
    BearerToken(Seq<char>),
}

impl View for AuthenticationRaw {
    type V = AuthenticationRawView;

    open spec fn view(&self) -> AuthenticationRawView {
        match self {
            AuthenticationRaw::SessionCookie(session_id) => AuthenticationRawView::SessionCookie(
                session_id@,
            ),
            AuthenticationRaw::BearerToken(token) => AuthenticationRawView::BearerToken(token@),
        }
    }
}

impl Clone for AuthenticationRaw {
    fn clone(&self) -> (copy: Self)
        ensures
            copy == *self,
    {
        match self {
            AuthenticationRaw::SessionCookie(session_id) => AuthenticationRaw::SessionCookie(
                session_id.clone(),
            ),
            AuthenticationRaw::BearerToken(token) => AuthenticationRaw::BearerToken(token.clone()),
        }
    }
}

/// A resolved identity: a user, and the session or the token that vouched
/// for them.
#[derive(Debug, PartialEq, Eq)]
pub enum Authentication {
    BySession { user: User, session: Session },
    ByToken { user: User, token: APIToken },
}

impl Clone for Authentication {
    fn clone(&self) -> (copy: Self)
        ensures
            copy == *self,
    {
        match self {
            Authentication::BySession { user, session } => Authentication::BySession {
                user: user.clone(),
                session: session.clone(),
            },
            Authentication::ByToken { user, token } => Authentication::ByToken {
                user: user.clone(),
                token: token.clone(),
            },
        }
    }
}

impl Authentication {
    /// The user behind the identity.
    pub open spec fn user(&self) -> User {
        match self {
            Authentication::BySession { user, .. } => *user,
            Authentication::ByToken { user, .. } => *user,
        }
    }

    /// What vouches for the user belongs to the user, and a token that
    /// vouches is not revoked.
    pub open spec fn wf(&self) -> bool {
        match self {
            Authentication::BySession { user, session } => session.user_id == user.id,
            Authentication::ByToken { user, token } => token.user_id == user.id && !token.revoked,
        }
    }

    /// The id of the user, whichever way they were identified.
    pub fn id(&self) -> (id: i64)
        ensures
            id == self.user().id,
    {
        match self {
            Authentication::BySession { user, .. } => user.id,
            Authentication::ByToken { user, .. } => user.id,
        }
    }

    pub fn as_ref(&self) -> (user: &User)
        ensures
            *user == self.user(),
    {
        match self {
            Authentication::BySession { user, .. } => user,
            Authentication::ByToken { user, .. } => user,
        }
    }

    pub fn into(self) -> (user: User)
        ensures
            user == self.user(),
    {
        match self {
            Authentication::BySession { user, .. } => user,
            Authentication::ByToken { user, .. } => user,
        }
    }

    pub fn is_session(&self) -> (by_session: bool)
        ensures
            by_session == (self is BySession),
    {
        match self {
            Authentication::BySession { .. } => true,
            Authentication::ByToken { .. } => false,
        }
    }

    pub fn is_api_token(&self) -> (by_token: bool)
        ensures
            by_token == (self is ByToken),
    {
        match self {
            Authentication::BySession { .. } => false,
            Authentication::ByToken { .. } => true,
        }
    }
}

/// What a handler that can do without an identity is given: the identity,
/// or the rights that the deployment grants to anyone.
#[derive(Debug, PartialEq, Eq)]
pub enum OptionalAuthentication {
    Auth(Authentication),
    Anonymous { permissions: Permissions },
}

impl Clone for OptionalAuthentication {
    fn clone(&self) -> (copy: Self)
        ensures
            copy == *self,
    {
        match self {
            OptionalAuthentication::Auth(auth) => OptionalAuthentication::Auth(auth.clone()),
            OptionalAuthentication::Anonymous { permissions } => OptionalAuthentication::Anonymous {
                permissions: *permissions,
            },
        }
    }
}

impl OptionalAuthentication {
    /// The rights the request acts with.
    pub open spec fn spec_permissions(&self) -> Permissions {
        match self {
            OptionalAuthentication::Auth(auth) => auth.user().permissions,
            OptionalAuthentication::Anonymous { permissions } => *permissions,
        }
    }

    pub fn permissions(&self) -> (permissions: &Permissions)
        ensures
            *permissions == self.spec_permissions(),
    {
        match self {
            OptionalAuthentication::Auth(auth) => &auth.as_ref().permissions,
            OptionalAuthentication::Anonymous { permissions } => permissions,
        }
    }

    /// The user, where the request has an identity.
    pub fn as_ref(&self) -> (user: Option<&User>)
        ensures
            match self {
                OptionalAuthentication::Auth(auth) => user == Some(&auth.user()),
                OptionalAuthentication::Anonymous { .. } => user is None,
            },
    {
        match self {
            OptionalAuthentication::Auth(auth) => Some(auth.as_ref()),
            OptionalAuthentication::Anonymous { .. } => None,
        }
    }

    pub fn is_auth(&self) -> (identified: bool)
        ensures
            identified == (self is Auth),
    {
        match self {
            OptionalAuthentication::Auth(_) => true,
            OptionalAuthentication::Anonymous { .. } => false,
        }
    }

    pub fn is_anonymous(&self) -> (anonymous: bool)
        ensures
            anonymous == (self is Anonymous),
    {
        match self {
            OptionalAuthentication::Auth(_) => false,
            OptionalAuthentication::Anonymous { .. } => true,
        }
    }
}

/// The answer to a successful login, or to the question who one is.
#[derive(Debug, PartialEq, Eq)]
pub struct LoginResponse {
    pub user: User,
    pub session: Option<Session>,
}

impl LoginResponse {
    /// The user, with the session where a session vouched for them.
    pub fn from(auth: Authentication) -> (response: Self)
        ensures
            response.user == auth.user(),
            response.session == match auth {
                Authentication::BySession { session, .. } => Some(session),
                Authentication::ByToken { .. } => None,
            },
    {
        match auth {
            Authentication::BySession { user, session } => LoginResponse {
                user,
                session: Some(session),
            },
            Authentication::ByToken { user, .. } => LoginResponse { user, session: None },
        }
    }
}

/// The one question the resolver needs answered next.
#[derive(Debug, PartialEq, Eq)]
pub enum Lookup {
    /// The session store is asked for the session with this id.
    SessionById(String),
    /// The relational store is asked for the user with this id.
    UserById(i64),
    /// The relational store is asked for the unrevoked token with this hash
    /// and for its owner.
    TokenByHash(String),
}

/// What a lookup brought back.
#[derive(Debug, PartialEq, Eq)]
pub enum Found {
    Session(Option<Session>),
    User(Option<User>),
    Token(Option<(APIToken, User)>),
}

/// The resolution of one request's credential: what it still waits for, or
/// how it ended.
///
/// A session id is first exchanged for its session, and the session for its
/// user. A token is hashed and exchanged for its record and its owner. Any
/// answer that does not fit ends the resolution without an identity.
#[derive(Debug, PartialEq, Eq)]
pub enum Resolver {
    NeedsSession { session_id: String },
    NeedsUser { session: Session },
    NeedsToken { token_hash: String },
    Resolved(Authentication),
    Unauthenticated,
}

impl Clone for Resolver {
    fn clone(&self) -> (copy: Self)
        ensures
            copy == *self,
    {
        match self {
            Resolver::NeedsSession { session_id } => Resolver::NeedsSession {
                session_id: session_id.clone(),
            },
            Resolver::NeedsUser { session } => Resolver::NeedsUser { session: session.clone() },
            Resolver::NeedsToken { token_hash } => Resolver::NeedsToken {
                token_hash: token_hash.clone(),
            },
            Resolver::Resolved(auth) => Resolver::Resolved(auth.clone()),
            Resolver::Unauthenticated => Resolver::Unauthenticated,
        }
    }
}

impl Resolver {
    /// Every identity the resolution ends with is well-formed.
    pub open spec fn wf(&self) -> bool {
        self matches Resolver::Resolved(auth) ==> auth.wf()
    }

    /// The resolution has ended.
    pub open spec fn is_done(&self) -> bool {
        self is Resolved || self is Unauthenticated
    }

    /// The step that [`Resolver::advance_at`] takes.
    ///
    /// A session counts only while it is valid at `now` and filed under the
    /// id asked for; a user only if the session is theirs; a token only if
    /// it carries the hash asked for, is not revoked and belongs to the user
    /// that came with it. A resolution that has ended stays as it is.
    pub open spec fn spec_advance_at(self, found: Found, now: i64) -> Resolver {
        match self {
            Resolver::NeedsSession { session_id } => match found {
                Found::Session(Some(session)) => if session.session_id@ == session_id@
                    && session.valid_at(now) {
                    Resolver::NeedsUser { session }
                } else {
                    Resolver::Unauthenticated
                },
                _ => Resolver::Unauthenticated,
            },
            Resolver::NeedsUser { session } => match found {
                Found::User(Some(user)) => if user.id == session.user_id {
                    Resolver::Resolved(Authentication::BySession { user, session })
                } else {
                    Resolver::Unauthenticated
                },
                _ => Resolver::Unauthenticated,
            },
            Resolver::NeedsToken { token_hash } => match found {
                Found::Token(Some((token, user))) => if token.token_hash@ == token_hash@
                    && !token.revoked && token.user_id == user.id {
                    Resolver::Resolved(Authentication::ByToken { user, token })
                } else {
                    Resolver::Unauthenticated
                },
                _ => Resolver::Unauthenticated,
            },
            Resolver::Resolved(auth) => Resolver::Resolved(auth),
            Resolver::Unauthenticated => Resolver::Unauthenticated,
        }
    }

    /// How a resolution begins.
    ///
    /// Without a credential there is nothing to resolve. A session id waits
    /// for its session, a token for the record filed under its hash.
    pub open spec fn begins(self, raw: Option<AuthenticationRaw>) -> bool {
        match raw {
            None => self is Unauthenticated,
            Some(AuthenticationRaw::SessionCookie(session_id)) => self == (Resolver::NeedsSession {
                session_id,
            }),
            Some(AuthenticationRaw::BearerToken(token)) => self is NeedsToken
                && self->token_hash@ == token_hash(token@),
        }
    }

    /// Begins the resolution of what the middleware attached to a request.
    pub fn new(raw: Option<AuthenticationRaw>) -> (resolver: Self)
        ensures
            resolver.begins(raw),
    {
        match raw {
            None => Resolver::Unauthenticated,
            Some(AuthenticationRaw::SessionCookie(session_id)) => Resolver::NeedsSession {
                session_id,
            },
            Some(AuthenticationRaw::BearerToken(token)) => Resolver::NeedsToken {
                token_hash: hash_token(token.as_str()),
            },
        }
    }

    /// The lookup the resolution waits for, if it waits for one.
    pub fn pending(&self) -> (lookup: Option<Lookup>)
        ensures
            match self {
                Resolver::NeedsSession { session_id } => lookup == Some(
                    Lookup::SessionById(*session_id),
                ),
                Resolver::NeedsUser { session } => lookup == Some(Lookup::UserById(session.user_id)),
                Resolver::NeedsToken { token_hash } => lookup == Some(
                    Lookup::TokenByHash(*token_hash),
                ),
                Resolver::Resolved(_) => lookup is None,
                Resolver::Unauthenticated => lookup is None,
            },
    {
        match self {
            Resolver::NeedsSession { session_id } => Some(Lookup::SessionById(session_id.clone())),
            Resolver::NeedsUser { session } => Some(Lookup::UserById(session.user_id)),
            Resolver::NeedsToken { token_hash } => Some(Lookup::TokenByHash(token_hash.clone())),
            Resolver::Resolved(_) => None,
            Resolver::Unauthenticated => None,
        }
    }

    /// Takes the answer to the pending lookup, judged at the instant `now`.
    pub fn advance_at(self, found: Found, now: i64) -> (next: Self)
        ensures
            next == self.spec_advance_at(found, now),
            self.wf() ==> next.wf(),
    {
        match self {
            Resolver::NeedsSession { session_id } => match found {
                Found::Session(Some(session)) => {
                    if str_equals(session.session_id.as_str(), session_id.as_str())
                        && !session.is_expired_at(now) {
                        Resolver::NeedsUser { session }
                    } else {
                        Resolver::Unauthenticated
                    }
                },
                _ => Resolver::Unauthenticated,
            },
            Resolver::NeedsUser { session } => match found {
                Found::User(Some(user)) => {
                    if user.id == session.user_id {
                        Resolver::Resolved(Authentication::BySession { user, session })
                    } else {
                        Resolver::Unauthenticated
                    }
                },
                _ => Resolver::Unauthenticated,
            },
            Resolver::NeedsToken { token_hash } => match found {
                Found::Token(Some((token, user))) => {
                    if str_equals(token.token_hash.as_str(), token_hash.as_str())
                        && !token.revoked && token.user_id == user.id {
                        Resolver::Resolved(Authentication::ByToken { user, token })
                    } else {
                        Resolver::Unauthenticated
                    }
                },
                _ => Resolver::Unauthenticated,
            },
            Resolver::Resolved(auth) => Resolver::Resolved(auth),
            Resolver::Unauthenticated => Resolver::Unauthenticated,
        }
    }

    /// Takes the answer to the pending lookup, judged by the clock's present
    /// reading.
    pub fn advance(self, found: Found) -> (next: Self)
        ensures
            exists|now: i64| now < i64::MAX && next == self.spec_advance_at(found, now),
            self.wf() ==> next.wf(),
    {
        let now = now_millis();
        self.advance_at(found, now)
    }

    /// What [`Resolver::required`] gives.
    pub open spec fn spec_required(self) -> Result<Authentication, WebsiteError> {
        match self {
            Resolver::Resolved(auth) => Ok(auth),
            _ => Err(WebsiteError::Unauthorized),
        }
    }

    /// The outcome for a handler that needs an identity: the identity, or a
    /// refusal.
    pub fn required(self) -> (outcome: Result<Authentication, WebsiteError>)
        ensures
            outcome == self.spec_required(),
    {
        match self {
            Resolver::Resolved(auth) => Ok(auth),
            _ => Err(WebsiteError::Unauthorized),
        }
    }

    /// What [`Resolver::optional`] gives.
    pub open spec fn spec_optional(self, anonymous_permissions: Permissions) -> OptionalAuthentication {
        match self {
            Resolver::Resolved(auth) => OptionalAuthentication::Auth(auth),
            _ => OptionalAuthentication::Anonymous { permissions: anonymous_permissions },
        }
    }

    /// The outcome for a handler that can do without an identity: the
    /// identity, or the rights the deployment grants to anyone.
    pub fn optional(self, anonymous_permissions: Permissions) -> (outcome: OptionalAuthentication)
        ensures
            outcome == self.spec_optional(anonymous_permissions),
    {
        match self {
            Resolver::Resolved(auth) => OptionalAuthentication::Auth(auth),
            _ => OptionalAuthentication::Anonymous { permissions: anonymous_permissions },
        }
    }
}

/// A resolution never ends with an identity that a revoked token vouches
/// for, whatever hash the token carries and whoever came with it: from a
/// state that has no identity yet, the answer that brings a revoked token
/// leads to none.
pub proof fn lemma_revoked_token_never_resolves(
    resolver: Resolver,
    token: APIToken,
    user: User,
    now: i64,
)
    requires
        token.revoked,
        !(resolver is Resolved),
    ensures
        resolver.spec_advance_at(Found::Token(Some((token, user))), now) is Unauthenticated,
{
}

/// Every step keeps the invariant of a resolution: an identity it holds is
/// well-formed, so a token that vouches is not revoked and what vouches
/// belongs to the user.
pub proof fn lemma_advance_keeps_wf(resolver: Resolver, found: Found, now: i64)
    requires
        resolver.wf(),
    ensures
        resolver.spec_advance_at(found, now).wf(),
{
}

/// A resolution begins well-formed and without an identity.
pub proof fn lemma_begins_without_identity(resolver: Resolver, raw: Option<AuthenticationRaw>)
    requires
        resolver.begins(raw),
    ensures
        resolver.wf(),
        !(resolver is Resolved),
{
}

/// A session that has expired by `now` resolves like a session that the
/// store does not hold: to no identity.
pub proof fn lemma_expired_session_is_absent(session_id: String, session: Session, now: i64)
    requires
        session.expires <= now,
    ensures
        (Resolver::NeedsSession { session_id }).spec_advance_at(
            Found::Session(Some(session)),
            now,
        ) == (Resolver::NeedsSession { session_id }).spec_advance_at(Found::Session(None), now),
        (Resolver::NeedsSession { session_id }).spec_advance_at(Found::Session(None), now)
            is Unauthenticated,
{
}

/// A request without a credential is refused where an identity is required,
/// and acts with the deployment's anonymous rights where it is optional.
pub proof fn lemma_no_credential_diverges(resolver: Resolver, anonymous_permissions: Permissions)
    requires
        resolver.begins(None),
    ensures
        resolver.spec_required() == Err::<Authentication, WebsiteError>(WebsiteError::Unauthorized),
        resolver.spec_optional(anonymous_permissions) == (OptionalAuthentication::Anonymous {
            permissions: anonymous_permissions,
        }),
{
}

/// The two modes agree on every identity: the optional outcome carries an
/// identity exactly when the required outcome succeeds, and then the same
/// one; otherwise the required mode refuses and the optional mode falls
/// back on the anonymous rights.
pub proof fn lemma_modes_share_identity(resolver: Resolver, anonymous_permissions: Permissions)
    ensures
        match resolver.spec_required() {
            Ok(auth) => resolver.spec_optional(anonymous_permissions)
                == OptionalAuthentication::Auth(auth),
            Err(_) => resolver.spec_optional(anonymous_permissions)
                == (OptionalAuthentication::Anonymous { permissions: anonymous_permissions }),
        },
{
}

} // verus!
