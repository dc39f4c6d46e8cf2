//! Authentication of a request by the bearer token in its `Authorization`
//! header.
use vstd::prelude::*;
use crate::clock::unix_seconds;
use crate::jwt::{Claims, JwtError, JwtService};

verus! {

/// Why a request could not be authenticated.
#[derive(Debug)]
pub enum AuthError {
    /// The request has no `Authorization` header.
    MissingAuthHeader,
    /// The header is not readable text.
    InvalidAuthHeader,
    /// The header is not written `Bearer <token>`.
    InvalidTokenFormat,
    /// The token was refused.
    Jwt(JwtError),
}

/// The prefix before the token in the header.
pub open spec fn bearer_prefix() -> Seq<char> {
    seq!['B', 'e', 'a', 'r', 'e', 'r', ' ']
}

/// `header` is written `Bearer <token>`.
pub open spec fn is_bearer(header: Seq<char>) -> bool {
    header.len() >= 7 && header.subrange(0, 7) == bearer_prefix()
}

/// What authenticating a request with `header` at time `now` gives: `header`
/// is `None` when the request has none, `Some(None)` when it is not text.
pub open spec fn auth_outcome(
    service: JwtService,
    header: Option<Option<&str>>,
    now: u64,
    r: Result<Claims, AuthError>,
) -> bool {
    match header {
        None => r == Err::<Claims, AuthError>(AuthError::MissingAuthHeader),
        Some(None) => r == Err::<Claims, AuthError>(AuthError::InvalidAuthHeader),
        Some(Some(h)) => if is_bearer(h@) {
            let token = h@.subrange(7, h@.len() as int);
            match r {
                Ok(c) => service.validation_outcome(token, now, Ok::<Claims, JwtError>(c)),
                Err(AuthError::Jwt(e)) => service.validation_outcome(token, now, Err::<Claims, JwtError>(e)),
                Err(_) => false,
            }
        } else {
            r == Err::<Claims, AuthError>(AuthError::InvalidTokenFormat)
        },
    }
}

/// The token in a header written `Bearer <token>`.
pub fn bearer_token(header: &str) -> (r: Result<&str, AuthError>)
    ensures
        is_bearer(header@) ==> (r matches Ok(t) && t@ == header@.subrange(7, header@.len() as int)),
        !is_bearer(header@) ==> r == Err::<&str, AuthError>(AuthError::InvalidTokenFormat),
{
    let len = header.unicode_len();
    if len < 7 {
        return Err(AuthError::InvalidTokenFormat);
    }
    let prefix = header.get_char(0) == 'B' && header.get_char(1) == 'e' && header.get_char(2) == 'a'
        && header.get_char(3) == 'r' && header.get_char(4) == 'e' && header.get_char(5) == 'r'
        && header.get_char(6) == ' ';
    if !prefix {
        assert(header@.subrange(0, 7) != bearer_prefix()) by {
            if header@.subrange(0, 7) == bearer_prefix() {
                assert(header@.subrange(0, 7)[0] == header@[0]);
            }
        }
        return Err(AuthError::InvalidTokenFormat);
    }
    assert(header@.subrange(0, 7) =~= bearer_prefix());
    Ok(header.substring_char(7, len))
}

/// Authenticates a request with the given header at time `now`. The header is
/// `None` when the request has none, and `Some(None)` when it is not text.
pub fn authenticate_at(service: &JwtService, header: Option<Option<&str>>, now: u64) -> (r: Result<Claims, AuthError>)
    ensures
        auth_outcome(*service, header, now, r),
{
    let text = match header {
        None => {
            return Err(AuthError::MissingAuthHeader);
        },
        Some(None) => {
            return Err(AuthError::InvalidAuthHeader);
        },
        Some(Some(text)) => text,
    };
    let token = bearer_token(text)?;
    match service.validate_token_at(token, now) {
        Ok(claims) => Ok(claims),
        Err(e) => Err(AuthError::Jwt(e)),
    }
}

/// Authenticates a request with the given header, now.
pub fn authenticate(service: &JwtService, header: Option<Option<&str>>) -> (r: Result<Claims, AuthError>)
    ensures
        exists|now: u64| now <= u64::MAX / 1000 && auth_outcome(*service, header, now, r),
{
    let now = unix_seconds();
    authenticate_at(service, header, now)
}

impl AuthError {
    /// The HTTP status to answer with: 401 when the caller is not
    /// authenticated, 500 when the token library failed.
    pub fn status(&self) -> (r: u16)
        ensures
            r == (match self {
                AuthError::Jwt(JwtError::JsonWebTokenError(_)) | AuthError::Jwt(JwtError::ConfigError) => 500u16,
                _ => 401u16,
            }),
    {
        match self {
            AuthError::Jwt(JwtError::JsonWebTokenError(_)) | AuthError::Jwt(JwtError::ConfigError) => 500,
            _ => 401,
        }
    }

    /// A sentence that describes the error.
    pub fn message(&self) -> (r: String)
        ensures
            self is MissingAuthHeader ==> r@ == "Missing Authorization header"@,
            self is InvalidAuthHeader ==> r@ == "Invalid Authorization header"@,
            self is InvalidTokenFormat ==> r@ == "Invalid token format. Use 'Bearer <token>'"@,
            self is Jwt ==> exists|t: Seq<char>| r@ == "Authentication failed: "@ + t,
    {
        match self {
            AuthError::MissingAuthHeader => String::from_str("Missing Authorization header"),
            AuthError::InvalidAuthHeader => String::from_str("Invalid Authorization header"),
            AuthError::InvalidTokenFormat => String::from_str("Invalid token format. Use 'Bearer <token>'"),
            AuthError::Jwt(e) => {
                let detail = e.message();
                let r = String::from_str("Authentication failed: ").concat(detail.as_str());
                assert(r@ == "Authentication failed: "@ + detail@);
                r
            },
        }
    }
}

} // verus!
