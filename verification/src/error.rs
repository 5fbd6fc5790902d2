//! What can go wrong while a request is served, and how the client is told.

use vstd::prelude::*;

use crate::user::session::dyn_session::SessionError;

verus! {

/// Why a request failed. Causes that come from outside the core are kept as
/// text.
#[derive(Debug, PartialEq, Eq)]
pub enum WebsiteError {
    IoError(String),
    DatabaseError(String),
    Unauthorized,
    Forbidden,
    SessionError(SessionError),
    NotFound,
    UTF8ERROR(String),
    ExceedsMaxLength,
}

impl WebsiteError {
    /// The status that answers each failure: a failure of the machinery is
    /// an internal error, a failure of the request a client error.
    pub open spec fn spec_status_code(&self) -> u16 {
        match self {
            WebsiteError::IoError(_) => 500,
            WebsiteError::DatabaseError(_) => 500,
            WebsiteError::Unauthorized => 401,
            WebsiteError::Forbidden => 403,
            WebsiteError::SessionError(_) => 500,
            WebsiteError::NotFound => 404,
            WebsiteError::UTF8ERROR(_) => 400,
            WebsiteError::ExceedsMaxLength => 400,
        }
    }

    pub fn status_code(&self) -> (code: u16)
        ensures
            code == self.spec_status_code(),
    {
        match self {
            WebsiteError::IoError(_) => 500,
            WebsiteError::DatabaseError(_) => 500,
            WebsiteError::Unauthorized => 401,
            WebsiteError::Forbidden => 403,
            WebsiteError::SessionError(_) => 500,
            WebsiteError::NotFound => 404,
            WebsiteError::UTF8ERROR(_) => 400,
            WebsiteError::ExceedsMaxLength => 400,
        }
    }

    /// What [`WebsiteError::message`] spells. The cause is kept out of it.
    pub open spec fn spec_message(&self) -> Seq<char> {
        match self {
            WebsiteError::IoError(_) => "IO Error"@,
            WebsiteError::DatabaseError(_) => "Database Error"@,
            WebsiteError::Unauthorized => "Unauthorized"@,
            WebsiteError::Forbidden => "Forbidden"@,
            WebsiteError::SessionError(_) => "Session Error"@,
            WebsiteError::NotFound => "Not Found"@,
            WebsiteError::UTF8ERROR(_) => "Bad Request"@,
            WebsiteError::ExceedsMaxLength => "Exceeds Maximum Length"@,
        }
    }

    /// The failure in words, as the client is told.
    pub fn message(&self) -> (text: String)
        ensures
            text@ == self.spec_message(),
    {
        match self {
            WebsiteError::IoError(_) => "IO Error".to_owned(),
            WebsiteError::DatabaseError(_) => "Database Error".to_owned(),
            WebsiteError::Unauthorized => "Unauthorized".to_owned(),
            WebsiteError::Forbidden => "Forbidden".to_owned(),
            WebsiteError::SessionError(_) => "Session Error".to_owned(),
            WebsiteError::NotFound => "Not Found".to_owned(),
            WebsiteError::UTF8ERROR(_) => "Bad Request".to_owned(),
            WebsiteError::ExceedsMaxLength => "Exceeds Maximum Length".to_owned(),
        }
    }

    /// A failure of the session store, as it reaches the client.
    pub fn from_session_error(error: SessionError) -> (failure: Self)
        ensures
            failure == WebsiteError::SessionError(error),
    {
        WebsiteError::SessionError(error)
    }
}

} // verus!
