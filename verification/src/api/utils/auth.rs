//! Session tokens: signed, self-contained credentials that bind a subject to
//! an expiry time. Times are seconds since the Unix epoch, handed in by the
//! caller.
use super::constants::{JWT_COOKIE_NAME, JWT_COOKIE_PATH};
use crate::domain::models::Email;
use jsonwebtoken::{Algorithm, DecodingKey, EncodingKey, Header, Validation};
use serde_json::Value;
use vstd::prelude::*;

verus! {

/// The token that `jsonwebtoken::encode` makes of the claims `sub = subject`
/// and `exp = expires_at`, under the default header and the HMAC key
/// `secret`; `None` where it reports an error.
pub uninterp spec fn signed_token(subject: Seq<char>, expires_at: u64, secret: Seq<u8>) -> Option<
    Seq<char>,
>;

/// The subject and expiry that `jsonwebtoken::decode` reads from `token`
/// under the HMAC key `secret`, checking structure and signature but not the
/// clock; `None` where it reports an error or a claim is not of its type.
pub uninterp spec fn signed_claims(token: Seq<char>, secret: Seq<u8>) -> Option<(Seq<char>, u64)>;

/// The secret that tokens are signed with, and how long a token lasts.
pub struct TokenSettings {
    /// The server-held signing secret.
    pub secret: Vec<u8>,
    /// The time to live of a token, in seconds.
    pub ttl_seconds: u64,
}

/// What a session token states.
#[derive(Debug)]
pub struct Claims {
    /// The subject: the text of the user's email.
    pub sub: String,
    /// The expiry, in seconds since the Unix epoch.
    pub exp: u64,
}

impl View for Claims {
    type V = (Seq<char>, u64);

    open spec fn view(&self) -> (Seq<char>, u64) {
        (self.sub@, self.exp)
    }
}

/// Why a token was not honoured.
#[derive(Debug, Clone, Copy, PartialEq, Eq, Structural)]
pub enum TokenError {
    /// The token is malformed, or its signature does not verify.
    Rejected,
    /// The token is genuine, but its expiry has passed.
    Expired,
}

/// Why no token was issued.
#[derive(Debug, Clone, Copy, PartialEq, Eq, Structural)]
pub enum GenerateTokenError {
    /// The expiry does not fit the range of times.
    ExpiryOutOfRange,
    /// Signing reported an error.
    SigningFailed,
}

/// The cookie that carries a session token, with the attributes that keep the
/// token from scripts and from other sites.
#[derive(Debug)]
pub struct AuthCookie {
    /// The cookie's name.
    pub name: String,
    /// The cookie's value: the token.
    pub value: String,
    /// The path the cookie is valid for.
    pub path: String,
    /// Whether the cookie is hidden from scripts.
    pub http_only: bool,
    /// Whether the cookie is sent along same-site requests and top-level
    /// navigations only.
    pub same_site_lax: bool,
    /// Whether the cookie travels over secure connections only.
    pub secure: bool,
}

impl AuthCookie {
    /// Whether this is the session cookie that carries `token`.
    pub open spec fn carries(&self, token: Seq<char>) -> bool {
        &&& self.name@ == JWT_COOKIE_NAME@
        &&& self.value@ == token
        &&& self.path@ == JWT_COOKIE_PATH@
        &&& self.http_only
        &&& self.same_site_lax
        &&& self.secure
    }
}

/// The expiry of a token issued at `now` that lasts `ttl_seconds`, if the sum
/// is in range.
pub open spec fn expiry_of(now: u64, ttl_seconds: u64) -> Option<u64> {
    if now + ttl_seconds <= u64::MAX {
        Some((now + ttl_seconds) as u64)
    } else {
        None
    }
}

/// What issuing a token for `subject` at `now` yields.
pub open spec fn issued_token(subject: Seq<char>, secret: Seq<u8>, ttl_seconds: u64, now: u64)
    -> Result<Seq<char>, GenerateTokenError> {
    match expiry_of(now, ttl_seconds) {
        None => Err(GenerateTokenError::ExpiryOutOfRange),
        Some(expires_at) => match signed_token(subject, expires_at, secret) {
            None => Err(GenerateTokenError::SigningFailed),
            Some(token) => Ok(token),
        },
    }
}

/// What is made at `now` of the claims read from a token: they stand unless
/// none were read or the expiry has passed.
pub open spec fn token_verdict(decoded: Option<(Seq<char>, u64)>, now: u64) -> Result<
    (Seq<char>, u64),
    TokenError,
> {
    match decoded {
        None => Err(TokenError::Rejected),
        Some(claims) => if now > claims.1 {
            Err(TokenError::Expired)
        } else {
            Ok(claims)
        },
    }
}

/// Whether `token` reads, under `secret`, as issued for `subject` at `now`
/// with a life of `ttl_seconds`.
pub open spec fn token_names(
    token: Seq<char>,
    secret: Seq<u8>,
    subject: Seq<char>,
    now: u64,
    ttl_seconds: u64,
) -> bool {
    match expiry_of(now, ttl_seconds) {
        Some(expires_at) => signed_claims(token, secret) == Some((subject, expires_at)),
        None => false,
    }
}

/// Whether `token` is honoured at `now` under `secret`, the ban list aside.
pub open spec fn token_stands(token: Seq<char>, secret: Seq<u8>, now: u64) -> bool {
    token_verdict(signed_claims(token, secret), now) is Ok
}

/// Computes the expiry of a token issued at `now` that lasts `ttl_seconds`.
pub fn expiry_after(now: u64, ttl_seconds: u64) -> (r: Option<u64>)
    ensures
        r == expiry_of(now, ttl_seconds),
{
    if ttl_seconds <= u64::MAX - now {
        Some(now + ttl_seconds)
    } else {
        None
    }
}

/// Issues a token that names `email` as its subject and expires
/// `settings.ttl_seconds` after `now`. The token reads back as issued.
pub fn generate_auth_token(email: &Email, settings: &TokenSettings, now: u64) -> (r: Result<
    String,
    GenerateTokenError,
>)
    ensures
        match (r, issued_token(email@, settings.secret@, settings.ttl_seconds, now)) {
            (Ok(token), Ok(named)) => token@ == named,
            (Err(e), Err(named)) => e == named,
            _ => false,
        },
        r matches Ok(token) ==> token_names(
            token@,
            settings.secret@,
            email@,
            now,
            settings.ttl_seconds,
        ),
{
    match expiry_after(now, settings.ttl_seconds) {
        None => Err(GenerateTokenError::ExpiryOutOfRange),
        Some(expires_at) => match sign_claims(
            email.as_ref(),
            expires_at,
            settings.secret.as_slice(),
        ) {
            None => Err(GenerateTokenError::SigningFailed),
            Some(token) => Ok(token),
        },
    }
}

/// Wraps `token` in the session cookie.
pub fn create_auth_cookie(token: String) -> (cookie: AuthCookie)
    ensures
        cookie.carries(token@),
{
    AuthCookie {
        name: JWT_COOKIE_NAME.to_owned(),
        value: token,
        path: JWT_COOKIE_PATH.to_owned(),
        http_only: true,
        same_site_lax: true,
        secure: true,
    }
}

/// Issues a token for `email` at `now` and wraps it in the session cookie.
pub fn generate_auth_cookie(email: &Email, settings: &TokenSettings, now: u64) -> (r: Result<
    AuthCookie,
    GenerateTokenError,
>)
    ensures
        match (r, issued_token(email@, settings.secret@, settings.ttl_seconds, now)) {
            (Ok(cookie), Ok(named)) => cookie.carries(named),
            (Err(e), Err(named)) => e == named,
            _ => false,
        },
        r matches Ok(cookie) ==> token_names(
            cookie.value@,
            settings.secret@,
            email@,
            now,
            settings.ttl_seconds,
        ),
{
    match generate_auth_token(email, settings, now) {
        Ok(token) => Ok(create_auth_cookie(token)),
        Err(e) => Err(e),
    }
}

/// Judges at `now` the claims that were read from a token, if any were.
pub fn claims_at(decoded: Option<(String, u64)>, now: u64) -> (r: Result<Claims, TokenError>)
    ensures
        match (r, decoded) {
            (Ok(claims), Some(read)) => now <= read.1 && claims.sub@ == read.0@ && claims.exp
                == read.1,
            (Err(e), Some(read)) => now > read.1 && e == TokenError::Expired,
            (Err(e), None) => e == TokenError::Rejected,
            (Ok(_), None) => false,
        },
{
    match decoded {
        None => Err(TokenError::Rejected),
        Some((sub, exp)) => if now > exp {
            Err(TokenError::Expired)
        } else {
            Ok(Claims { sub, exp })
        },
    }
}

/// Checks `token` at `now`: its structure, its signature under
/// `settings.secret`, and its expiry. The ban list is not consulted.
pub fn validate_token(token: &str, settings: &TokenSettings, now: u64) -> (r: Result<
    Claims,
    TokenError,
>)
    ensures
        match (r, token_verdict(signed_claims(token@, settings.secret@), now)) {
            (Ok(claims), Ok(named)) => claims@ == named,
            (Err(e), Err(named)) => e == named,
            _ => false,
        },
        r is Ok <==> token_stands(token@, settings.secret@, now),
{
    claims_at(decode_claims(token, settings.secret.as_slice()), now)
}

/// `jsonwebtoken::encode` on the claims `sub` and `exp`, with the default
/// header (HS256) and `secret` as the HMAC key. The token depends on the
/// three arguments alone, and `jsonwebtoken::decode` reads the two claims
/// back from it under the same key.
#[verifier::external_body]
fn sign_claims(subject: &str, expires_at: u64, secret: &[u8]) -> (token: Option<String>)
    ensures
        match (token, signed_token(subject@, expires_at, secret@)) {
            (Some(made), Some(named)) => made@ == named,
            (None, None) => true,
            _ => false,
        },
        token matches Some(made) ==> signed_claims(made@, secret@) == Some((subject@, expires_at)),
{
    let mut claims = serde_json::Map::new();
    claims.insert("sub".to_owned(), Value::from(subject));
    claims.insert("exp".to_owned(), Value::from(expires_at));
    jsonwebtoken::encode(&Header::default(), &claims, &EncodingKey::from_secret(secret)).ok()
}

/// `jsonwebtoken::decode` under HS256 with `secret` as the HMAC key and the
/// expiry check switched off, so that the outcome depends on the two
/// arguments alone. The claims `sub` and `exp` are handed out where the
/// first is a string and the second an unsigned number.
#[verifier::external_body]
fn decode_claims(token: &str, secret: &[u8]) -> (claims: Option<(String, u64)>)
    ensures
        match (claims, signed_claims(token@, secret@)) {
            (Some(read), Some(named)) => read.0@ == named.0 && read.1 == named.1,
            (None, None) => true,
            _ => false,
        },
{
    let mut rules = Validation::new(Algorithm::HS256);
    rules.validate_exp = false;
    match jsonwebtoken::decode::<Value>(token, &DecodingKey::from_secret(secret), &rules) {
        Ok(data) => match (data.claims["sub"].as_str(), data.claims["exp"].as_u64()) {
            (Some(sub), Some(exp)) => Some((sub.to_owned(), exp)),
            _ => None,
        },
        Err(_) => None,
    }
}

/// A token stands from its issue to its expiry, the second of expiry
/// included, and at no later time.
pub proof fn token_stands_until_expiry(
    token: Seq<char>,
    secret: Seq<u8>,
    subject: Seq<char>,
    now: u64,
    ttl_seconds: u64,
    later: u64,
)
    requires
        token_names(token, secret, subject, now, ttl_seconds),
    ensures
        token_stands(token, secret, later) <==> later <= now + ttl_seconds,
        token_stands(token, secret, now),
{
}

} // verus!
