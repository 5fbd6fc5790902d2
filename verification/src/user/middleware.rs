//! The rules by which the request middleware finds a credential.
//!
//! The middleware looks at the `Authorization` header and, failing that, at
//! the session cookie. It only parses: what it finds is attached to the
//! request as an [`AuthenticationRaw`] and no store is asked.

use std::sync::Arc;
use vstd::prelude::*;
use vstd::string::StringExecFns;

use super::{AuthenticationRaw, AuthenticationRawView};
use crate::config::SessionConfig;
use crate::utils::text::{ascii_string, ascii_text, str_equals};

verus! {

/// Why an `Authorization` header was turned away.
#[derive(Debug, PartialEq, Eq)]
pub enum HeaderError {
    /// The value holds a byte that is not visible ASCII.
    NotText,
    /// The value has no space between a scheme and a credential.
    Malformed,
    /// The scheme is not one the deployment accepts.
    UnsupportedScheme(String),
}

/// A header error as plain values.
pub enum HeaderErrorView {
    NotText,
    Malformed,
    UnsupportedScheme(Seq<char>),
}

impl View for HeaderError {
    type V = HeaderErrorView;

    open spec fn view(&self) -> HeaderErrorView {
        match self {
            HeaderError::NotText => HeaderErrorView::NotText,
            HeaderError::Malformed => HeaderErrorView::Malformed,
            HeaderError::UnsupportedScheme(scheme) => HeaderErrorView::UnsupportedScheme(scheme@),
        }
    }
}

/// The status with which a request with a bad `Authorization` header is
/// answered.
pub const BAD_REQUEST: u16 = 400;

impl HeaderError {
    /// What [`HeaderError::message`] spells.
    pub open spec fn spec_message(&self) -> Seq<char> {
        match self {
            HeaderError::NotText => "Invalid Authorization Header"@,
            HeaderError::Malformed =>
                "Invalid Authorization Header. Please use Format \"Bearer <token>\" or \"Session <session>\""@,
            HeaderError::UnsupportedScheme(scheme) => "Unsupported Authorization Header: "@
                + scheme@,
        }
    }

    /// The body of the answer to the client.
    pub fn message(&self) -> (body: String)
        ensures
            body@ == self.spec_message(),
    {
        match self {
            HeaderError::NotText => "Invalid Authorization Header".to_owned(),
            HeaderError::Malformed =>
                "Invalid Authorization Header. Please use Format \"Bearer <token>\" or \"Session <session>\"".to_owned(),
            HeaderError::UnsupportedScheme(scheme) => "Unsupported Authorization Header: ".to_owned().concat(
                scheme.as_str(),
            ),
        }
    }
}

/// A cookie of the request, already split into name and value.
#[derive(Debug, PartialEq, Eq)]
pub struct RequestCookie {
    pub name: String,
    pub value: String,
}

/// What the middleware does with a request.
#[derive(Debug, PartialEq, Eq)]
pub enum Extraction {
    /// Hand the request on, with the credential attached if there is one.
    Forward(Option<AuthenticationRaw>),
    /// Answer the request with a client error.
    Reject(HeaderError),
}

/// An extraction as plain values.
pub enum ExtractionView {
    Forward(Option<AuthenticationRawView>),
    Reject(HeaderErrorView),
}

impl View for Extraction {
    type V = ExtractionView;

    open spec fn view(&self) -> ExtractionView {
        match self {
            Extraction::Forward(Some(raw)) => ExtractionView::Forward(Some(raw@)),
            Extraction::Forward(None) => ExtractionView::Forward(None),
            Extraction::Reject(error) => ExtractionView::Reject(error@),
        }
    }
}

/// A space, a tab or a printable ASCII character.
pub open spec fn is_visible_ascii(b: u8) -> bool {
    (32 <= b < 127) || b == 9
}

/// Every byte of the value is visible ASCII.
pub open spec fn is_text(value: Seq<u8>) -> bool {
    forall|i: int| 0 <= i < value.len() ==> is_visible_ascii(#[trigger] value[i])
}

/// `at` is the place of the first space in `value`.
pub open spec fn is_first_space(value: Seq<u8>, at: int) -> bool {
    &&& 0 <= at < value.len()
    &&& value[at] == 0x20
    &&& forall|i: int| 0 <= i < at ==> #[trigger] value[i] != 0x20
}

/// The place of the first space in a value that has one.
pub open spec fn first_space(value: Seq<u8>) -> int {
    choose|at: int| is_first_space(value, at)
}

/// The scheme of a header value: what stands before its first space.
pub open spec fn scheme_of(value: Seq<u8>) -> Seq<char> {
    ascii_text(value.subrange(0, first_space(value)))
}

/// The credential of a header value: what stands behind its first space.
pub open spec fn credential_of(value: Seq<u8>) -> Seq<char> {
    ascii_text(value.subrange(first_space(value) + 1, value.len() as int))
}

/// What an `Authorization` header means.
///
/// A value that is not text, or has no space, is turned away. `Bearer`
/// announces an API token. The name of the session cookie announces a
/// session id, where the deployment lets sessions travel in the header.
/// Every other scheme is turned away by name.
pub open spec fn parse_auth_header(
    value: Seq<u8>,
    cookie_name: Seq<char>,
    allow_in_header: bool,
) -> Result<AuthenticationRawView, HeaderErrorView> {
    if !is_text(value) {
        Err(HeaderErrorView::NotText)
    } else if !value.contains(0x20) {
        Err(HeaderErrorView::Malformed)
    } else if scheme_of(value) == "Bearer"@ {
        Ok(AuthenticationRawView::BearerToken(credential_of(value)))
    } else if allow_in_header && scheme_of(value) == cookie_name {
        Ok(AuthenticationRawView::SessionCookie(credential_of(value)))
    } else {
        Err(HeaderErrorView::UnsupportedScheme(scheme_of(value)))
    }
}

/// The value of the first cookie called `name`.
pub open spec fn cookie_value(cookies: Seq<RequestCookie>, name: Seq<char>) -> Option<Seq<char>>
    decreases cookies.len(),
{
    if cookies.len() == 0 {
        None
    } else if cookies[0].name@ == name {
        Some(cookies[0].value@)
    } else {
        cookie_value(cookies.drop_first(), name)
    }
}

/// What the header and the cookies of a request yield.
///
/// The header, where there is one, decides alone. Without a header the
/// session cookie yields a session id, and without that there is no
/// credential.
pub open spec fn find_credential(
    authorization: Option<Seq<u8>>,
    cookies: Seq<RequestCookie>,
    cookie_name: Seq<char>,
    allow_in_header: bool,
) -> Result<Option<AuthenticationRawView>, HeaderErrorView> {
    match authorization {
        Some(value) => match parse_auth_header(value, cookie_name, allow_in_header) {
            Ok(raw) => Ok(Some(raw)),
            Err(error) => Err(error),
        },
        None => match cookie_value(cookies, cookie_name) {
            Some(session_id) => Ok(Some(AuthenticationRawView::SessionCookie(session_id))),
            None => Ok(None),
        },
    }
}

/// What the middleware does with a request.
///
/// A preflight request passes untouched, whatever it carries.
pub open spec fn extract(
    method: Seq<char>,
    authorization: Option<Seq<u8>>,
    cookies: Seq<RequestCookie>,
    cookie_name: Seq<char>,
    allow_in_header: bool,
) -> ExtractionView {
    if method == "OPTIONS"@ {
        ExtractionView::Forward(None)
    } else {
        match find_credential(authorization, cookies, cookie_name, allow_in_header) {
            Ok(raw) => ExtractionView::Forward(raw),
            Err(error) => ExtractionView::Reject(error),
        }
    }
}

/// A parsed header as plain values.
pub open spec fn parsed_view(parsed: Result<AuthenticationRaw, HeaderError>) -> Result<
    AuthenticationRawView,
    HeaderErrorView,
> {
    match parsed {
        Ok(raw) => Ok(raw@),
        Err(error) => Err(error@),
    }
}

/// A found credential as plain values.
pub open spec fn found_view(found: Result<Option<AuthenticationRaw>, HeaderError>) -> Result<
    Option<AuthenticationRawView>,
    HeaderErrorView,
> {
    match found {
        Ok(Some(raw)) => Ok(Some(raw@)),
        Ok(None) => Ok(None),
        Err(error) => Err(error@),
    }
}

/// The first space of a value is where a scan from the left meets a space.
proof fn lemma_first_space(value: Seq<u8>, at: int)
    requires
        is_first_space(value, at),
    ensures
        first_space(value) == at,
        value.contains(0x20),
{
    let chosen = first_space(value);
    assert(is_first_space(value, chosen));
    if chosen < at {
        assert(value[chosen] != 0x20);
    }
    if at < chosen {
        assert(value[at] != 0x20);
    }
}

/// Makes the middleware for a deployment.
pub struct HandleSession {
    pub session_config: Arc<SessionConfig>,
}

/// The middleware of a deployment.
pub struct SessionMiddleware {
    session_config: Arc<SessionConfig>,
}

impl HandleSession {
    pub fn new_transform(&self) -> (middleware: SessionMiddleware)
        ensures
            middleware.settings() == *self.session_config,
    {
        SessionMiddleware { session_config: self.session_config.clone() }
    }
}

impl SessionMiddleware {
    /// The settings the middleware goes by.
    pub closed spec fn settings(&self) -> SessionConfig {
        *self.session_config
    }

    /// The credential that a session cookie of value `cookie_value` stands
    /// for.
    pub fn handle_session(cookie_value: &str) -> (raw: AuthenticationRaw)
        ensures
            raw@ == AuthenticationRawView::SessionCookie(cookie_value@),
    {
        AuthenticationRaw::SessionCookie(cookie_value.to_owned())
    }

    /// Reads the value of an `Authorization` header.
    pub fn handle_auth_header(&self, auth: &[u8]) -> (parsed: Result<
        AuthenticationRaw,
        HeaderError,
    >)
        ensures
            parsed_view(parsed) == parse_auth_header(
                auth@,
                self.settings().cookie_name@,
                self.settings().allow_in_header,
            ),
    {
        let mut seen: usize = 0;
        while seen < auth.len()
            invariant
                seen <= auth@.len(),
                forall|i: int| 0 <= i < seen ==> is_visible_ascii(#[trigger] auth@[i]),
            decreases auth@.len() - seen,
        {
            let b: u8 = auth[seen];
            if !((32 <= b && b < 127) || b == 9) {
                return Err(HeaderError::NotText);
            }
            seen = seen + 1;
        }
        let mut at: usize = 0;
        while at < auth.len() && auth[at] != 0x20
            invariant
                at <= auth@.len(),
                forall|i: int| 0 <= i < at ==> #[trigger] auth@[i] != 0x20,
            decreases auth@.len() - at,
        {
            at = at + 1;
        }
        if at == auth.len() {
            assert(!auth@.contains(0x20));
            return Err(HeaderError::Malformed);
        }
        proof {
            lemma_first_space(auth@, at as int);
        }
        let scheme = ascii_string(auth, 0, at);
        let credential = ascii_string(auth, at + 1, auth.len());
        if str_equals(scheme.as_str(), "Bearer") {
            Ok(AuthenticationRaw::BearerToken(credential))
        } else if self.session_config.allow_in_header && str_equals(
            scheme.as_str(),
            self.session_config.cookie_name.as_str(),
        ) {
            Ok(AuthenticationRaw::SessionCookie(credential))
        } else {
            Err(HeaderError::UnsupportedScheme(scheme))
        }
    }

    /// Finds the credential of a request in its header or its cookies.
    pub fn handle_authentication(
        &self,
        authorization: Option<&[u8]>,
        cookies: &Vec<RequestCookie>,
    ) -> (found: Result<Option<AuthenticationRaw>, HeaderError>)
        ensures
            found_view(found) == find_credential(
                match authorization {
                    Some(value) => Some(value@),
                    None => None,
                },
                cookies@,
                self.settings().cookie_name@,
                self.settings().allow_in_header,
            ),
    {
        match authorization {
            Some(value) => match self.handle_auth_header(value) {
                Ok(raw) => Ok(Some(raw)),
                Err(error) => Err(error),
            },
            None => {
                let mut at: usize = 0;
                assert(cookies@.skip(0) =~= cookies@);
                while at < cookies.len()
                    invariant
                        authorization is None,
                        at <= cookies@.len(),
                        cookie_value(cookies@, self.settings().cookie_name@) == cookie_value(
                            cookies@.skip(at as int),
                            self.settings().cookie_name@,
                        ),
                    decreases cookies@.len() - at,
                {
                    assert(cookies@.skip(at as int)[0] == cookies@[at as int]);
                    assert(cookies@.skip(at as int).drop_first() =~= cookies@.skip(at + 1));
                    if str_equals(
                        cookies[at].name.as_str(),
                        self.session_config.cookie_name.as_str(),
                    ) {
                        return Ok(Some(Self::handle_session(cookies[at].value.as_str())));
                    }
                    at = at + 1;
                }
                Ok(None)
            },
        }
    }

    /// Decides what to do with a request, from its method, the value of its
    /// `Authorization` header and its cookies.
    pub fn call(&self, method: &str, authorization: Option<&[u8]>, cookies: &Vec<RequestCookie>) -> (decision:
        Extraction)
        ensures
            decision@ == extract(
                method@,
                match authorization {
                    Some(value) => Some(value@),
                    None => None,
                },
                cookies@,
                self.settings().cookie_name@,
                self.settings().allow_in_header,
            ),
    {
        if str_equals(method, "OPTIONS") {
            return Extraction::Forward(None);
        }
        match self.handle_authentication(authorization, cookies) {
            Ok(raw) => Extraction::Forward(raw),
            Err(error) => Extraction::Reject(error),
        }
    }
}

} // verus!
