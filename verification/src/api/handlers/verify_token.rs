//! Verification of a session token.
use crate::api::dtos::VerifyTokenRequest;
use crate::api::utils::auth::{
    signed_claims, token_names, token_stands, token_verdict, validate_token, TokenSettings,
};
use crate::domain::error::{fails_with, AuthAPIError};
use crate::domain::ports::BannedStore;
use vstd::prelude::*;

verus! {

/// Whether `token` is honoured at `now`: it is not revoked, its structure and
/// signature are in order under `secret`, and it has not expired.
pub open spec fn token_honoured(
    banned: Set<Seq<char>>,
    token: Seq<char>,
    secret: Seq<u8>,
    now: u64,
) -> bool {
    !banned.contains(token) && token_stands(token, secret, now)
}

/// What verifying `token` at `now` yields where `banned` are revoked: the
/// status of success, or `InvalidToken`.
pub open spec fn verify_token_outcome(
    banned: Set<Seq<char>>,
    token: Seq<char>,
    secret: Seq<u8>,
    now: u64,
) -> Result<u16, AuthAPIError> {
    if token_honoured(banned, token, secret, now) {
        Ok(200)
    } else {
        Err(AuthAPIError::InvalidToken)
    }
}

/// Verifies `token` at `now`: it must not be revoked, and must stand as
/// [`validate_token`] checks it. With a store that cannot fail the outcome
/// is [`verify_token_outcome`]; another store may also fail with
/// `UnexpectedError`.
pub fn verify_token<B: BannedStore>(
    banned_store: &B,
    token: &str,
    settings: &TokenSettings,
    now: u64,
) -> (r: Result<u16, AuthAPIError>)
    ensures
        r == verify_token_outcome(banned_store.tokens(), token@, settings.secret@, now) || (
        !B::infallible() && fails_with(r, AuthAPIError::UnexpectedError)),
{
    match banned_store.is_banned(token) {
        Err(_) => Err(AuthAPIError::UnexpectedError),
        Ok(true) => Err(AuthAPIError::InvalidToken),
        Ok(false) => match validate_token(token, settings, now) {
            Ok(_) => Ok(200),
            Err(_) => Err(AuthAPIError::InvalidToken),
        },
    }
}

/// Handles a request to verify a token at `now`, as [`verify_token`] does.
pub fn handle_verify_token<B: BannedStore>(
    banned_store: &B,
    request: VerifyTokenRequest,
    settings: &TokenSettings,
    now: u64,
) -> (r: Result<u16, AuthAPIError>)
    ensures
        r == verify_token_outcome(banned_store.tokens(), request.token@, settings.secret@, now)
            || (!B::infallible() && fails_with(r, AuthAPIError::UnexpectedError)),
{
    verify_token(banned_store, request.token.as_str(), settings, now)
}

/// A token from which no claims can be read, or whose expiry has passed, is
/// answered with `InvalidToken`, whatever the ban list holds.
pub proof fn unreadable_or_expired_token_is_invalid(
    banned: Set<Seq<char>>,
    token: Seq<char>,
    secret: Seq<u8>,
    now: u64,
)
    requires
        match signed_claims(token, secret) {
            None => true,
            Some(claims) => claims.1 < now,
        },
    ensures
        token_verdict(signed_claims(token, secret), now) is Err,
        verify_token_outcome(banned, token, secret, now) == Err::<u16, AuthAPIError>(
            AuthAPIError::InvalidToken,
        ),
{
}

/// A token that a login or a verified second factor handed out is honoured
/// from its issue to its expiry, unless it was revoked.
pub proof fn issued_token_is_honoured(
    banned: Set<Seq<char>>,
    token: Seq<char>,
    secret: Seq<u8>,
    subject: Seq<char>,
    now: u64,
    ttl_seconds: u64,
    later: u64,
)
    requires
        token_names(token, secret, subject, now, ttl_seconds),
        !banned.contains(token),
        later <= now + ttl_seconds,
    ensures
        verify_token_outcome(banned, token, secret, later) == Ok::<u16, AuthAPIError>(200),
{
}

} // verus!
