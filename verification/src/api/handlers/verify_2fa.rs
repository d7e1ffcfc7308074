//! Verification of the second factor.
use crate::api::dtos::Verify2faRequest;
use crate::api::utils::auth::{
    generate_auth_cookie, issued_token, token_names, AuthCookie, GenerateTokenError,
    TokenSettings,
};
use crate::domain::error::{fails_with, AuthAPIError};
use crate::domain::models::{
    code_text_ok, email_syntax_ok, lacks_at_sign, uuid_text, Email, LoginAttemptId, TwoFACode,
};
use crate::domain::ports::{TwoFACodeStore, TwoFACodeStoreError};
use vstd::prelude::*;

verus! {

/// Whether `(login_attempt_id, code)` is the pending entry of `email` in
/// `codes`. The two are compared as a unit.
pub open spec fn second_factor_matches(
    codes: Map<Seq<char>, (Seq<char>, Seq<char>)>,
    email: Seq<char>,
    login_attempt_id: Seq<char>,
    code: Seq<char>,
) -> bool {
    codes.contains_key(email) && codes[email] == (login_attempt_id, code)
}

/// Whether `r` is the reply of a verified second factor that carries `token`.
pub open spec fn completes_second_factor(
    r: Result<(AuthCookie, u16), AuthAPIError>,
    token: Seq<char>,
) -> bool {
    match r {
        Ok((cookie, status)) => status == 200 && cookie.carries(token),
        Err(_) => false,
    }
}

/// Whether a verification that ended in `r` did what is due where the
/// presented pair matches the pending entry or not (`matches`), for a token
/// that is issued as `issued` says.
pub open spec fn verification_follows(
    matches: bool,
    issued: Result<Seq<char>, GenerateTokenError>,
    r: Result<(AuthCookie, u16), AuthAPIError>,
) -> bool {
    if !matches {
        fails_with(r, AuthAPIError::IncorrectCredentials)
    } else {
        match issued {
            Ok(token) => completes_second_factor(r, token),
            Err(_) => fails_with(r, AuthAPIError::UnexpectedError),
        }
    }
}

/// Whether the three fields of a verification request are well formed.
pub open spec fn verify_2fa_input_ok(email: Seq<char>, login_attempt_id: Seq<char>, code: Seq<char>)
    -> bool {
    &&& email_syntax_ok(email)
    &&& uuid_text(login_attempt_id) is Ok
    &&& code_text_ok(code)
}

/// Completes at `now` the login of `email` with the identifier and the code
/// presented. They must be the pending entry of `email`; the entry stays in
/// the store. A store that can fail may also have the verification end in
/// `UnexpectedError`: a failure of the store is reported as such, and only
/// an absent entry as `IncorrectCredentials`.
pub fn verify_2fa<T: TwoFACodeStore>(
    two_fa_store: &T,
    email: &Email,
    login_attempt_id: &LoginAttemptId,
    code: &TwoFACode,
    settings: &TokenSettings,
    now: u64,
) -> (r: Result<(AuthCookie, u16), AuthAPIError>)
    ensures
        verification_follows(
            second_factor_matches(two_fa_store.codes(), email@, login_attempt_id@, code@),
            issued_token(email@, settings.secret@, settings.ttl_seconds, now),
            r,
        ) || (!T::infallible() && fails_with(r, AuthAPIError::UnexpectedError)),
        r matches Ok(reply) ==> token_names(
            reply.0.value@,
            settings.secret@,
            email@,
            now,
            settings.ttl_seconds,
        ),
{
    let stored = match two_fa_store.get_code(email) {
        Ok(stored) => stored,
        Err(TwoFACodeStoreError::LoginAttemptIdNotFound) => {
            return Err(AuthAPIError::IncorrectCredentials);
        },
        Err(TwoFACodeStoreError::UnexpectedError) => {
            return Err(AuthAPIError::UnexpectedError);
        },
    };
    if !(stored.0 == *login_attempt_id && stored.1 == *code) {
        return Err(AuthAPIError::IncorrectCredentials);
    }
    match generate_auth_cookie(email, settings, now) {
        Ok(cookie) => Ok((cookie, 200)),
        Err(_) => Err(AuthAPIError::UnexpectedError),
    }
}

/// Handles a verification request at `now`: parses the email, the identifier
/// and the code, rejecting malformed input with `InvalidCredentials` before
/// the store is touched, then verifies as [`verify_2fa`] does. The identifier
/// is compared in its hyphenated lower-case form.
pub fn handle_verify_2fa<T: TwoFACodeStore>(
    two_fa_store: &T,
    request: Verify2faRequest,
    settings: &TokenSettings,
    now: u64,
) -> (r: Result<(AuthCookie, u16), AuthAPIError>)
    ensures
        !verify_2fa_input_ok(request.email@, request.login_attempt_id@, request._2fa_code@)
            ==> fails_with(r, AuthAPIError::InvalidCredentials),
        verify_2fa_input_ok(request.email@, request.login_attempt_id@, request._2fa_code@) ==> {
            ||| verification_follows(
                second_factor_matches(
                    two_fa_store.codes(),
                    request.email@,
                    uuid_text(request.login_attempt_id@)->Ok_0,
                    request._2fa_code@,
                ),
                issued_token(request.email@, settings.secret@, settings.ttl_seconds, now),
                r,
            )
            ||| (!T::infallible() && fails_with(r, AuthAPIError::UnexpectedError))
        },
        lacks_at_sign(request.email@) ==> fails_with(r, AuthAPIError::InvalidCredentials),
        r matches Ok(reply) ==> token_names(
            reply.0.value@,
            settings.secret@,
            request.email@,
            now,
            settings.ttl_seconds,
        ),
{
    let email = match Email::parse(request.email.as_str()) {
        Ok(email) => email,
        Err(_) => {
            return Err(AuthAPIError::InvalidCredentials);
        },
    };
    let login_attempt_id = match LoginAttemptId::parse(request.login_attempt_id) {
        Ok(login_attempt_id) => login_attempt_id,
        Err(_) => {
            return Err(AuthAPIError::InvalidCredentials);
        },
    };
    let two_fa_code = match TwoFACode::parse(request._2fa_code) {
        Ok(two_fa_code) => two_fa_code,
        Err(_) => {
            return Err(AuthAPIError::InvalidCredentials);
        },
    };
    verify_2fa(two_fa_store, &email, &login_attempt_id, &two_fa_code, settings, now)
}

/// Once a later login has replaced the pending entry of an email, the pair
/// of the earlier login is refused and the pair of the later one is
/// accepted: only the latest entry counts.
pub proof fn superseded_entry_is_refused(
    codes: Map<Seq<char>, (Seq<char>, Seq<char>)>,
    email: Seq<char>,
    earlier: (Seq<char>, Seq<char>),
    later: (Seq<char>, Seq<char>),
)
    requires
        earlier != later,
    ensures
        !second_factor_matches(
            codes.insert(email, earlier).insert(email, later),
            email,
            earlier.0,
            earlier.1,
        ),
        second_factor_matches(
            codes.insert(email, earlier).insert(email, later),
            email,
            later.0,
            later.1,
        ),
        second_factor_matches(codes.insert(email, earlier), email, earlier.0, earlier.1),
{
}

} // verus!
