//! Logout.
use super::verify_2fa::second_factor_matches;
use super::verify_token::{token_honoured, verify_token_outcome};
use crate::api::utils::auth::{
    create_auth_cookie, signed_claims, validate_token, AuthCookie, TokenSettings,
};
use crate::domain::error::{fails_with, failure_of, AuthAPIError};
use crate::domain::models::{email_syntax_ok, Email};
use crate::domain::ports::{BannedStore, TwoFACodeStore};
use vstd::prelude::*;

verus! {

/// Logging out at `now` with the token presented, if one was, where `banned`
/// are revoked: the failure, if any, and the revoked tokens afterwards.
pub open spec fn logout_step(
    banned: Set<Seq<char>>,
    token: Option<Seq<char>>,
    secret: Seq<u8>,
    now: u64,
) -> (Option<AuthAPIError>, Set<Seq<char>>) {
    match token {
        None => (Some(AuthAPIError::MissingToken), banned),
        Some(token) => if token_honoured(banned, token, secret, now) {
            (None, banned.insert(token))
        } else {
            (Some(AuthAPIError::InvalidToken), banned)
        },
    }
}

/// The pending entries once the session of `subject` was ended: the entry of
/// `subject` is withdrawn, so that a code issued before the logout no longer
/// works. Entries are filed under email addresses; a subject that is none
/// has no entry, and the entries stay as they are.
pub open spec fn codes_after_logout(
    codes: Map<Seq<char>, (Seq<char>, Seq<char>)>,
    subject: Seq<char>,
) -> Map<Seq<char>, (Seq<char>, Seq<char>)> {
    if email_syntax_ok(subject) {
        codes.remove(subject)
    } else {
        codes
    }
}

/// The subject that `token` names under `secret`, where claims can be read
/// from it.
pub open spec fn subject_of(token: Seq<char>, secret: Seq<u8>) -> Seq<char> {
    signed_claims(token, secret)->Some_0.0
}

/// A session that was ended: what the first step of a logout hands to the
/// second.
#[derive(Debug)]
pub struct EndedSession {
    /// The token of the session, now revoked.
    pub token: String,
    /// The subject that the token names.
    pub subject: String,
}

/// The text of `token`, if one was presented.
pub open spec fn presented(token: Option<&str>) -> Option<Seq<char>> {
    match token {
        Some(token) => Some(token@),
        None => None,
    }
}

/// Takes the first step of a logout at `now`: revokes the token presented and
/// hands back the session that was ended. Only the ban store is touched. Without a token the
/// answer is `MissingToken`; with one that is revoked already, or does not
/// stand at `now`, it is `InvalidToken`. With a store that cannot fail the
/// outcome is [`logout_step`]; another store may also fail with
/// `UnexpectedError`, and is then unchanged.
pub fn revoke_token<B: BannedStore>(
    banned_store: &mut B,
    token: Option<&str>,
    settings: &TokenSettings,
    now: u64,
) -> (r: Result<EndedSession, AuthAPIError>)
    ensures
        ({
            ||| (failure_of(r), final(banned_store).tokens()) == logout_step(
                old(banned_store).tokens(),
                presented(token),
                settings.secret@,
                now,
            )
            ||| {
                &&& !B::infallible()
                &&& token is Some
                &&& fails_with(r, AuthAPIError::UnexpectedError)
                &&& final(banned_store).tokens() == old(banned_store).tokens()
            }
        }),
        match r {
            Ok(ended) => {
                &&& token matches Some(read)
                &&& ended.token@ == read@
                &&& signed_claims(read@, settings.secret@) is Some
                &&& ended.subject@ == subject_of(read@, settings.secret@)
            },
            Err(_) => true,
        },
{
    let token = match token {
        Some(token) => token,
        None => {
            return Err(AuthAPIError::MissingToken);
        },
    };
    match banned_store.is_banned(token) {
        Ok(is_banned) => {
            if is_banned {
                return Err(AuthAPIError::InvalidToken);
            }
            let claims = match validate_token(token, settings, now) {
                Ok(claims) => claims,
                Err(_) => {
                    return Err(AuthAPIError::InvalidToken);
                },
            };
            if banned_store.add_token(token).is_err() {
                return Err(AuthAPIError::UnexpectedError);
            }
            Ok(EndedSession { token: token.to_owned(), subject: claims.sub })
        },
        Err(_) => Err(AuthAPIError::UnexpectedError),
    }
}

/// Takes the second step of a logout: withdraws the pending second-factor
/// entry of the session's subject, if it has one, and answers with the
/// cookie to strip from the caller's session. Only the code store is
/// touched. With a store that cannot fail this succeeds; another store may
/// fail with `UnexpectedError`, and is then unchanged.
pub fn finish_logout<T: TwoFACodeStore>(two_fa_store: &mut T, ended: EndedSession) -> (r: Result<
    (AuthCookie, u16),
    AuthAPIError,
>)
    ensures
        match r {
            Ok(reply) => {
                &&& reply.1 == 200
                &&& reply.0.carries(ended.token@)
                &&& final(two_fa_store).codes() == codes_after_logout(
                    old(two_fa_store).codes(),
                    ended.subject@,
                )
            },
            Err(e) => {
                &&& e == AuthAPIError::UnexpectedError
                &&& !T::infallible()
                &&& final(two_fa_store).codes() == old(two_fa_store).codes()
            },
        },
{
    match Email::parse(ended.subject.as_str()) {
        Ok(email) => {
            if two_fa_store.remove_code(&email).is_err() {
                return Err(AuthAPIError::UnexpectedError);
            }
        },
        Err(_) => {},
    }
    Ok((create_auth_cookie(ended.token), 200))
}

/// Ends the session of the token presented at `now`: the first step as
/// [`revoke_token`] takes it, then the second as [`finish_logout`] does. A
/// successful logout leaves the token revoked and the pending second-factor
/// entry of its subject withdrawn. A failed one leaves the pending entries as
/// they were; the token is revoked all the same where it was the code store
/// that failed.
pub fn handle_logout<B: BannedStore, T: TwoFACodeStore>(
    banned_store: &mut B,
    two_fa_store: &mut T,
    token: Option<&str>,
    settings: &TokenSettings,
    now: u64,
) -> (r: Result<(AuthCookie, u16), AuthAPIError>)
    ensures
        ({
            ||| (failure_of(r), final(banned_store).tokens()) == logout_step(
                old(banned_store).tokens(),
                presented(token),
                settings.secret@,
                now,
            )
            ||| {
                &&& !B::infallible()
                &&& token is Some
                &&& fails_with(r, AuthAPIError::UnexpectedError)
                &&& final(banned_store).tokens() == old(banned_store).tokens()
            }
            ||| {
                &&& !T::infallible()
                &&& fails_with(r, AuthAPIError::UnexpectedError)
                &&& logout_step(
                    old(banned_store).tokens(),
                    presented(token),
                    settings.secret@,
                    now,
                ) == (None::<AuthAPIError>, final(banned_store).tokens())
            }
        }),
        match r {
            Ok(reply) => {
                &&& token matches Some(read)
                &&& reply.1 == 200
                &&& reply.0.carries(read@)
                &&& final(two_fa_store).codes() == codes_after_logout(
                    old(two_fa_store).codes(),
                    subject_of(read@, settings.secret@),
                )
            },
            Err(_) => final(two_fa_store).codes() == old(two_fa_store).codes(),
        },
{
    match revoke_token(banned_store, token, settings, now) {
        Ok(ended) => finish_logout(two_fa_store, ended),
        Err(e) => Err(e),
    }
}

/// Once a user has logged out, no second-factor code issued to that user
/// before the logout works any more, whichever identifier and code are
/// presented. The pending entries of the other users are as they were.
pub proof fn logout_withdraws_pending_code(
    codes: Map<Seq<char>, (Seq<char>, Seq<char>)>,
    subject: Seq<char>,
    other: Seq<char>,
    login_attempt_id: Seq<char>,
    code: Seq<char>,
)
    requires
        email_syntax_ok(subject),
        other != subject,
    ensures
        !second_factor_matches(
            codes_after_logout(codes, subject),
            subject,
            login_attempt_id,
            code,
        ),
        second_factor_matches(codes_after_logout(codes, subject), other, login_attempt_id, code)
            == second_factor_matches(codes, other, login_attempt_id, code),
{
}

/// A token that was logged out is revoked for good: a second logout with it
/// is answered with `InvalidToken` and changes nothing, and so is a
/// verification of it, at any later time.
pub proof fn logout_is_single_use(
    banned: Set<Seq<char>>,
    token: Seq<char>,
    secret: Seq<u8>,
    now: u64,
    later: u64,
)
    requires
        logout_step(banned, Some(token), secret, now).0 is None,
    ensures
        token_honoured(banned, token, secret, now),
        logout_step(banned, Some(token), secret, now).1 == banned.insert(token),
        logout_step(banned.insert(token), Some(token), secret, later) == (
            Some(AuthAPIError::InvalidToken),
            banned.insert(token),
        ),
        verify_token_outcome(banned.insert(token), token, secret, later) == Err::<
            u16,
            AuthAPIError,
        >(AuthAPIError::InvalidToken),
{
}

/// Logging out one token leaves every other token as it was: honoured
/// before, it is honoured after.
pub proof fn logout_spares_other_tokens(
    banned: Set<Seq<char>>,
    token: Seq<char>,
    other: Seq<char>,
    secret: Seq<u8>,
    now: u64,
)
    requires
        other != token,
    ensures
        token_honoured(logout_step(banned, Some(token), secret, now).1, other, secret, now)
            == token_honoured(banned, other, secret, now),
{
}

} // verus!
