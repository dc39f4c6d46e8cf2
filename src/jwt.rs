//! Signed tokens that carry a subject and an expiry time.
//!
//! Tokens are HS256-signed JSON Web Tokens made and read by the `jsonwebtoken`
//! crate. The expiry is checked here, against a time the caller hands in, so
//! that issuing and validating are exact functions of their inputs.
use vstd::prelude::*;
use crate::clock::unix_seconds;
use crate::config::AppConfig;
use crate::duration::{duration_seconds, parse_expires_in};
use jsonwebtoken::errors::{Error, ErrorKind};
use jsonwebtoken::{decode, Algorithm, DecodingKey, Validation};

verus! {

#[verifier::external_type_specification]
#[verifier::external_body]
pub struct ExJsonWebTokenError(jsonwebtoken::errors::Error);

/// The claims a token carries.
#[derive(Debug, Clone)]
pub struct Claims {
    /// Whom the token was issued for.
    pub sub: String,
    /// Expiry, in seconds since the Unix epoch.
    pub exp: u64,
}

/// Why a token could not be issued or accepted, or the service built.
#[derive(Debug)]
pub enum JwtError {
    /// The signature does not match, or the token is not a well-formed token.
    InvalidToken,
    /// The signature matches but the expiry time has passed.
    ExpiredToken,
    /// Any other failure reported by the token library.
    JsonWebTokenError(jsonwebtoken::errors::Error),
    /// The secret is empty, the lifetime is not a valid duration, or an expiry
    /// time does not fit in a `u64`.
    ConfigError,
}

/// The kinds of failure the token library reports when it decodes a token,
/// as far as this library tells them apart.
#[derive(Debug, Clone, Copy, PartialEq, Eq, Structural)]
pub enum TokenFailure {
    /// The token does not have the three parts of a token.
    InvalidToken,
    /// The signature does not match.
    InvalidSignature,
    /// A part is not base64.
    Base64,
    /// A part is not the JSON it should be.
    Json,
    /// A part is not UTF-8.
    Utf8,
    /// Anything else.
    Other,
}

/// The token that `jsonwebtoken::encode` makes for the claims `sub` and `exp`,
/// signed with HS256 under `secret`.
pub uninterp spec fn hs256_token(secret: Seq<u8>, sub: Seq<char>, exp: u64) -> Seq<char>;

/// What `jsonwebtoken::decode` finds in `token` under `secret` with HS256 and no
/// expiry check: the kind of failure when it rejects the token, else the `sub`
/// member when it is a string and the `exp` member when it is an unsigned
/// integer.
pub uninterp spec fn hs256_claims(secret: Seq<u8>, token: Seq<char>) -> Result<
    (Option<Seq<char>>, Option<u64>),
    TokenFailure,
>;

/// A decoding that succeeded with the given claims.
pub open spec fn decoded(sub: Option<Seq<char>>, exp: Option<u64>) -> Result<(Option<Seq<char>>, Option<u64>), TokenFailure> {
    Ok((sub, exp))
}

/// A decoding that failed with the given kind of failure.
pub open spec fn rejected(kind: TokenFailure) -> Result<(Option<Seq<char>>, Option<u64>), TokenFailure> {
    Err(kind)
}

/// The characters of an optional string.
pub open spec fn text_of(s: Option<String>) -> Option<Seq<char>> {
    match s {
        Some(t) => Some(t@),
        None => None,
    }
}

/// Relies on `jsonwebtoken::encode` with `Header::default()` (HS256) and the key
/// that `EncodingKey::from_secret` makes of `secret`; the claims are the JSON
/// object with `sub` and `exp`. With an HMAC key and an HMAC header, encode has
/// no failing path, and `decode` under the same secret gives back both claims.
#[verifier::external_body]
fn encode_hs256(secret: &[u8], sub: &str, exp: u64) -> (r: Result<String, jsonwebtoken::errors::Error>)
    ensures
        r is Ok,
        r matches Ok(t) ==> t@ == hs256_token(secret@, sub@, exp),
        r matches Ok(t) ==> hs256_claims(secret@, t@) == decoded(Some(sub@), Some(exp)),
{
    let claims = serde_json::Value::from_iter([
        ("sub", serde_json::Value::from(sub)),
        ("exp", serde_json::Value::from(exp)),
    ]);
    jsonwebtoken::encode(&jsonwebtoken::Header::default(), &claims, &jsonwebtoken::EncodingKey::from_secret(secret))
}

/// Relies on `jsonwebtoken::decode` with `Validation::new(HS256)`, its expiry
/// check switched off, and the key that `DecodingKey::from_secret` makes of
/// `secret`; the outcome then depends on `token` and `secret` alone. A failure
/// is told apart by `Error::kind`.
#[verifier::external_body]
fn decode_hs256(secret: &[u8], token: &str) -> (r: Result<(Option<String>, Option<u64>), (TokenFailure, Error)>)
    ensures
        match r {
            Ok((sub, exp)) => hs256_claims(secret@, token@) == decoded(text_of(sub), exp),
            Err((kind, _)) => hs256_claims(secret@, token@) == rejected(kind),
        },
{
    let mut validation = Validation::new(Algorithm::HS256);
    validation.validate_exp = false;
    match decode::<serde_json::Value>(token, &DecodingKey::from_secret(secret), &validation) {
        Ok(d) => Ok((d.claims["sub"].as_str().map(str::to_owned), d.claims["exp"].as_u64())),
        Err(e) => Err((match e.kind() {
            ErrorKind::InvalidToken => TokenFailure::InvalidToken,
            ErrorKind::InvalidSignature => TokenFailure::InvalidSignature,
            ErrorKind::Base64(_) => TokenFailure::Base64,
            ErrorKind::Json(_) => TokenFailure::Json,
            ErrorKind::Utf8(_) => TokenFailure::Utf8,
            _ => TokenFailure::Other,
        }, e)),
    }
}

impl JwtError {
    /// The error for a failure of the token library of the given kind: a
    /// signature mismatch or a token that does not decode is `InvalidToken`,
    /// anything else the library's own error.
    pub fn from_failure(failure: TokenFailure, e: Error) -> (r: JwtError)
        ensures
            failure == TokenFailure::Other ==> r == JwtError::JsonWebTokenError(e),
            failure != TokenFailure::Other ==> r == JwtError::InvalidToken,
    {
        match failure {
            TokenFailure::Other => JwtError::JsonWebTokenError(e),
            _ => JwtError::InvalidToken,
        }
    }

    /// A sentence that describes the error.
    pub fn message(&self) -> (r: String)
        ensures
            self is InvalidToken ==> r@ == "Invalid token"@,
            self is ExpiredToken ==> r@ == "Expired token"@,
            self is ConfigError ==> r@ == "JWT config error"@,
            self is JsonWebTokenError ==> exists|t: Seq<char>| r@ == "JWT error: "@ + t,
    {
        match self {
            JwtError::InvalidToken => String::from_str("Invalid token"),
            JwtError::ExpiredToken => String::from_str("Expired token"),
            JwtError::ConfigError => String::from_str("JWT config error"),
            JwtError::JsonWebTokenError(e) => {
                let detail = e.to_string();
                let r = String::from_str("JWT error: ").concat(detail.as_str());
                assert(r@ == "JWT error: "@ + detail@);
                r
            },
        }
    }
}

/// `token` is what issuing makes for `sub` with expiry `exp` under `secret`,
/// and it decodes back to those two claims.
pub open spec fn issued_token(secret: Seq<u8>, token: Seq<char>, sub: Seq<char>, exp: u64) -> bool {
    &&& token == hs256_token(secret, sub, exp)
    &&& hs256_claims(secret, token) == decoded(Some(sub), Some(exp))
}

/// What validating `token` at time `now` gives: its claims while `now` is
/// before the expiry and `ExpiredToken` from then on; `InvalidToken` when a
/// claim is missing, the signature does not match or the token does not
/// decode. `None` when the token library fails in another way, which the
/// library's own error then reports.
pub open spec fn checked_claims(secret: Seq<u8>, token: Seq<char>, now: u64) -> Option<
    Result<(Seq<char>, u64), JwtError>,
> {
    match hs256_claims(secret, token) {
        Ok((Some(sub), Some(exp))) => Some(
            if exp <= now {
                Err(JwtError::ExpiredToken)
            } else {
                Ok((sub, exp))
            },
        ),
        Ok(_) => Some(Err(JwtError::InvalidToken)),
        Err(TokenFailure::Other) => None,
        Err(_) => Some(Err(JwtError::InvalidToken)),
    }
}

/// Issues and validates tokens under one secret and one token lifetime.
#[derive(Clone)]
pub struct JwtService {
    secret: Vec<u8>,
    expires_in: u64,
}

impl JwtService {
    /// The bytes tokens are signed with.
    pub closed spec fn secret(&self) -> Seq<u8> {
        self.secret@
    }

    /// Seconds from issuing a token to its expiry.
    pub closed spec fn lifetime(&self) -> u64 {
        self.expires_in
    }

    /// What issuing a token for `sub` at time `now` may give.
    pub open spec fn issue_outcome(&self, sub: Seq<char>, now: u64, r: Result<String, JwtError>) -> bool {
        if now + self.lifetime() <= u64::MAX {
            r matches Ok(t) && issued_token(self.secret(), t@, sub, (now + self.lifetime()) as u64)
        } else {
            r == Err::<String, JwtError>(JwtError::ConfigError)
        }
    }

    /// What validating `token` at time `now` may give.
    pub open spec fn validation_outcome(&self, token: Seq<char>, now: u64, r: Result<Claims, JwtError>) -> bool {
        match checked_claims(self.secret(), token, now) {
            Some(Ok((sub, exp))) => r matches Ok(c) && c.sub@ == sub && c.exp == exp,
            Some(Err(e)) => r == Err::<Claims, JwtError>(e),
            None => r matches Err(JwtError::JsonWebTokenError(_)),
        }
    }

    /// Builds the service from the signing secret and the token lifetime.
    ///
    /// An empty secret is refused with `ConfigError`, as is a lifetime that is
    /// not a duration `parse_expires_in` accepts.
    pub fn from_config(config: &AppConfig) -> (r: Result<JwtService, JwtError>)
        ensures
            config.jwt.secret@.len() == 0 ==> r == Err::<JwtService, JwtError>(JwtError::ConfigError),
            config.jwt.secret@.len() > 0 ==> match duration_seconds(config.jwt.expires_in@) {
                Some(v) => if v <= u64::MAX {
                    r matches Ok(s) && s.secret() == vstd::utf8::encode_utf8(config.jwt.secret@)
                        && s.lifetime() == v
                } else {
                    r == Err::<JwtService, JwtError>(JwtError::ConfigError)
                },
                None => r == Err::<JwtService, JwtError>(JwtError::ConfigError),
            },
    {
        let secret = config.jwt.secret.as_str();
        if secret.is_empty() {
            return Err(JwtError::ConfigError);
        }
        let expires_in = parse_expires_in(config.jwt.expires_in.as_str())?;
        Ok(JwtService { secret: secret.as_bytes_vec(), expires_in })
    }

    /// Seconds from issuing a token to its expiry.
    pub fn expires_in_seconds(&self) -> (r: u64)
        ensures
            r == self.lifetime(),
    {
        self.expires_in
    }

    /// Issues a token for `user_id` at time `now` (seconds since the Unix
    /// epoch); it expires `now` plus the lifetime.
    pub fn generate_token_at(&self, user_id: &str, now: u64) -> (r: Result<String, JwtError>)
        ensures
            self.issue_outcome(user_id@, now, r),
    {
        let exp = match now.checked_add(self.expires_in) {
            Some(exp) => exp,
            None => {
                return Err(JwtError::ConfigError);
            },
        };
        match encode_hs256(self.secret.as_slice(), user_id, exp) {
            Ok(token) => Ok(token),
            Err(e) => Err(JwtError::JsonWebTokenError(e)),
        }
    }

    /// Issues a token for `user_id`, expiring the lifetime from now.
    pub fn generate_token(&self, user_id: &str) -> (r: Result<String, JwtError>)
        ensures
            exists|now: u64| now <= u64::MAX / 1000 && self.issue_outcome(user_id@, now, r),
    {
        let now = unix_seconds();
        self.generate_token_at(user_id, now)
    }

    /// Checks the signature of `token` and that it has not expired at time
    /// `now`, and returns its claims.
    pub fn validate_token_at(&self, token: &str, now: u64) -> (r: Result<Claims, JwtError>)
        ensures
            self.validation_outcome(token@, now, r),
    {
        match decode_hs256(self.secret.as_slice(), token) {
            Err((failure, e)) => Err(JwtError::from_failure(failure, e)),
            Ok((Some(sub), Some(exp))) => {
                if exp <= now {
                    Err(JwtError::ExpiredToken)
                } else {
                    Ok(Claims { sub, exp })
                }
            },
            Ok(_) => Err(JwtError::InvalidToken),
        }
    }

    /// Checks the signature of `token` and that it has not expired now, and
    /// returns its claims.
    pub fn validate_token(&self, token: &str) -> (r: Result<Claims, JwtError>)
        ensures
            exists|now: u64| now <= u64::MAX / 1000 && self.validation_outcome(token@, now, r),
    {
        let now = unix_seconds();
        self.validate_token_at(token, now)
    }
}

/// A token issued at time `issued_at` is accepted, with the subject it was
/// issued for and an expiry later than the validation time, at any time before
/// the lifetime has passed. From then on, and so at once when the lifetime is
/// zero, it is refused as expired, not as invalid.
pub proof fn lemma_issue_then_validate(
    service: JwtService,
    subject: Seq<char>,
    issued_at: u64,
    issued: Result<String, JwtError>,
    now: u64,
    validated: Result<Claims, JwtError>,
)
    requires
        service.issue_outcome(subject, issued_at, issued),
        issued matches Ok(token) && service.validation_outcome(token@, now, validated),
    ensures
        now < issued_at + service.lifetime() ==> (validated matches Ok(c) && c.sub@ == subject
            && c.exp == issued_at + service.lifetime() && c.exp > now),
        issued_at + service.lifetime() <= now ==> validated == Err::<Claims, JwtError>(
            JwtError::ExpiredToken,
        ),
{
}

/// Issuing is a function of the service, the subject and the clock: two tokens
/// issued for one subject at one time are the same token.
pub proof fn lemma_issue_is_deterministic(
    service: JwtService,
    subject: Seq<char>,
    now: u64,
    first: Result<String, JwtError>,
    second: Result<String, JwtError>,
)
    requires
        service.issue_outcome(subject, now, first),
        service.issue_outcome(subject, now, second),
    ensures
        first matches Ok(a) ==> (second matches Ok(b) && a@ == b@),
        first is Err ==> second is Err,
{
}

} // verus!
