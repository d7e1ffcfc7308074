//! Login.
use crate::api::dtos::{LoginRequest, MFARequiredResponse};
use crate::api::utils::auth::{
    generate_auth_cookie, issued_token, token_names, AuthCookie, GenerateTokenError,
    TokenSettings,
};
use crate::domain::error::{fails_with, AuthAPIError};
use crate::domain::models::{
    code_text_ok, email_syntax_ok, is_v4_uuid_text, lacks_at_sign, password_text_ok, Email,
    LoginAttemptId, Password, TwoFACode, UserView,
};
use crate::domain::ports::{credentials_match, TwoFACodeStore, UserStore};
use vstd::prelude::*;

verus! {

/// The notice that a login carries when it asks for the second factor.
pub const MFA_MESSAGE: &'static str = "2FA required";

/// The body of a successful login's reply.
#[derive(Debug, PartialEq, Eq)]
pub enum LoginResponse {
    /// The login is complete; the session token travels in the cookie.
    RegularAuth,
    /// The login waits for the second factor.
    TwoFactorAuth(MFARequiredResponse),
}

/// What a successful login hands back: the cookie to set, if the login is
/// complete, then the status and the body.
pub type LoginReply = (Option<AuthCookie>, (u16, LoginResponse));

/// What becomes of a login attempt once the credentials were looked up.
pub enum LoginPlan {
    /// The credentials name no user, or the password is another.
    Refuse,
    /// The user logs in with the password alone.
    IssueToken,
    /// The user has to present a second factor.
    AskSecondFactor,
}

/// What becomes of a login with `email` and `password` where `users` are
/// registered.
pub open spec fn login_plan(users: Map<Seq<char>, UserView>, email: Seq<char>, password: Seq<char>)
    -> LoginPlan {
    if !credentials_match(users, email, password) {
        LoginPlan::Refuse
    } else if users[email].requires_2fa {
        LoginPlan::AskSecondFactor
    } else {
        LoginPlan::IssueToken
    }
}

/// Whether `r` is the reply of a completed login that carries `token`.
pub open spec fn completes_login(r: Result<LoginReply, AuthAPIError>, token: Seq<char>) -> bool {
    match r {
        Ok((Some(cookie), (status, LoginResponse::RegularAuth))) => {
            &&& status == 200
            &&& cookie.carries(token)
        },
        _ => false,
    }
}

/// Whether `r` is the reply of a login that asks for the second factor and
/// hands out `login_attempt_id`. It carries no cookie, and not the code.
pub open spec fn asks_second_factor(
    r: Result<LoginReply, AuthAPIError>,
    login_attempt_id: Seq<char>,
) -> bool {
    match r {
        Ok((None, (status, LoginResponse::TwoFactorAuth(body)))) => {
            &&& status == 206
            &&& body.message@ == MFA_MESSAGE@
            &&& body.login_attempt_id@ == login_attempt_id
        },
        _ => false,
    }
}

/// Whether the cookie of `r`, if it carries one, holds a token that reads as
/// issued for `subject` at `now` with a life of `ttl_seconds`.
pub open spec fn login_token_names(
    r: Result<LoginReply, AuthAPIError>,
    secret: Seq<u8>,
    subject: Seq<char>,
    now: u64,
    ttl_seconds: u64,
) -> bool {
    match r {
        Ok((Some(cookie), _)) => token_names(cookie.value@, secret, subject, now, ttl_seconds),
        _ => true,
    }
}

/// Whether `after` is `before` with a fresh pending entry for `email`: a
/// version-4 UUID and a six-digit code.
pub open spec fn fresh_entry_for(
    before: Map<Seq<char>, (Seq<char>, Seq<char>)>,
    after: Map<Seq<char>, (Seq<char>, Seq<char>)>,
    email: Seq<char>,
) -> bool {
    &&& after.contains_key(email)
    &&& after == before.insert(email, after[email])
    &&& is_v4_uuid_text(after[email].0)
    &&& code_text_ok(after[email].1)
}

/// Whether a login that ended in `r` and took the pending entries from
/// `before` to `after` did what `plan` asks, for a token that is issued as
/// `issued` says.
pub open spec fn login_follows(
    plan: LoginPlan,
    issued: Result<Seq<char>, GenerateTokenError>,
    email: Seq<char>,
    r: Result<LoginReply, AuthAPIError>,
    before: Map<Seq<char>, (Seq<char>, Seq<char>)>,
    after: Map<Seq<char>, (Seq<char>, Seq<char>)>,
) -> bool {
    match plan {
        LoginPlan::Refuse => fails_with(r, AuthAPIError::IncorrectCredentials) && after == before,
        LoginPlan::IssueToken => {
            &&& after == before
            &&& match issued {
                Ok(token) => completes_login(r, token),
                Err(_) => fails_with(r, AuthAPIError::UnexpectedError),
            }
        },
        LoginPlan::AskSecondFactor => {
            &&& fresh_entry_for(before, after, email)
            &&& asks_second_factor(r, after[email].0)
        },
    }
}

/// Makes `(login_attempt_id, code)` the pending entry of `email` and answers
/// with the identifier. With a store that cannot fail this succeeds.
pub fn start_second_factor<T: TwoFACodeStore>(
    two_fa_store: &mut T,
    email: &Email,
    login_attempt_id: LoginAttemptId,
    code: TwoFACode,
) -> (r: Result<LoginReply, AuthAPIError>)
    ensures
        match r {
            Ok(_) => {
                &&& asks_second_factor(r, login_attempt_id@)
                &&& final(two_fa_store).codes() == old(two_fa_store).codes().insert(
                    email@,
                    (login_attempt_id@, code@),
                )
            },
            Err(e) => {
                &&& e == AuthAPIError::UnexpectedError
                &&& !T::infallible()
                &&& final(two_fa_store).codes() == old(two_fa_store).codes()
            },
        },
{
    let id_text = login_attempt_id.as_ref().to_owned();
    if two_fa_store.add_code(email.clone(), login_attempt_id, code).is_err() {
        return Err(AuthAPIError::UnexpectedError);
    }
    Ok(
        (
            None,
            (
                206,
                LoginResponse::TwoFactorAuth(
                    MFARequiredResponse {
                        message: MFA_MESSAGE.to_owned(),
                        login_attempt_id: id_text,
                    },
                ),
            ),
        ),
    )
}

/// Opens the second step of a login for `email`: draws a fresh identifier and
/// a fresh code, and stores them in place of any earlier entry.
pub fn handle_2fa<T: TwoFACodeStore>(two_fa_store: &mut T, email: &Email) -> (r: Result<
    LoginReply,
    AuthAPIError,
>)
    ensures
        match r {
            Ok(_) => {
                &&& fresh_entry_for(
                    old(two_fa_store).codes(),
                    final(two_fa_store).codes(),
                    email@,
                )
                &&& asks_second_factor(r, final(two_fa_store).codes()[email@].0)
            },
            Err(e) => {
                &&& e == AuthAPIError::UnexpectedError
                &&& !T::infallible()
                &&& final(two_fa_store).codes() == old(two_fa_store).codes()
            },
        },
{
    let login_attempt_id = LoginAttemptId::default();
    let two_fa_code = TwoFACode::default();
    start_second_factor(two_fa_store, email, login_attempt_id, two_fa_code)
}

/// Completes a login for `email` at `now`: issues a session token and hands
/// it out in the cookie.
pub fn handle_no_2fa(email: &Email, settings: &TokenSettings, now: u64) -> (r: Result<
    LoginReply,
    AuthAPIError,
>)
    ensures
        match issued_token(email@, settings.secret@, settings.ttl_seconds, now) {
            Ok(token) => completes_login(r, token),
            Err(_) => fails_with(r, AuthAPIError::UnexpectedError),
        },
        login_token_names(r, settings.secret@, email@, now, settings.ttl_seconds),
{
    match generate_auth_cookie(email, settings, now) {
        Ok(cookie) => Ok((Some(cookie), (200, LoginResponse::RegularAuth))),
        Err(_) => Err(AuthAPIError::UnexpectedError),
    }
}

/// Where a login stands once the user store was consulted.
#[derive(Debug)]
pub enum LoginStep {
    /// The login has ended, with this reply.
    Done(Result<LoginReply, AuthAPIError>),
    /// The credentials are in order, and the user has to present a second
    /// factor: the second step is to be opened for this email.
    SecondFactor(Email),
}

/// Whether `step` is what `plan` asks for at the end of the first step of a
/// login with `email`, for a token that is issued as `issued` says.
pub open spec fn step_follows(
    plan: LoginPlan,
    issued: Result<Seq<char>, GenerateTokenError>,
    email: Seq<char>,
    step: LoginStep,
) -> bool {
    match (plan, step) {
        (LoginPlan::Refuse, LoginStep::Done(r)) => fails_with(
            r,
            AuthAPIError::IncorrectCredentials,
        ),
        (LoginPlan::IssueToken, LoginStep::Done(r)) => match issued {
            Ok(token) => completes_login(r, token),
            Err(_) => fails_with(r, AuthAPIError::UnexpectedError),
        },
        (LoginPlan::AskSecondFactor, LoginStep::SecondFactor(next)) => next@ == email,
        _ => false,
    }
}

/// Whether `step` is a login refused with `IncorrectCredentials`.
pub open spec fn step_refuses(step: LoginStep) -> bool {
    match step {
        LoginStep::Done(r) => fails_with(r, AuthAPIError::IncorrectCredentials),
        LoginStep::SecondFactor(_) => false,
    }
}

/// Whether the cookie of `step`, if it carries one, holds a token that reads
/// as issued for `subject` at `now` with a life of `ttl_seconds`.
pub open spec fn step_token_names(
    step: LoginStep,
    secret: Seq<u8>,
    subject: Seq<char>,
    now: u64,
    ttl_seconds: u64,
) -> bool {
    match step {
        LoginStep::Done(r) => login_token_names(r, secret, subject, now, ttl_seconds),
        LoginStep::SecondFactor(_) => true,
    }
}

/// Takes the first step of a login with validated credentials at `now`: looks
/// the credentials up and, where no second factor is asked for, issues the
/// session token. Only the user store is consulted. With a store that cannot
/// fail the outcome is what [`login_plan`] asks; another store may also have
/// the login refused.
pub fn begin_login<S: UserStore>(
    user_store: &S,
    email: &Email,
    password: &Password,
    settings: &TokenSettings,
    now: u64,
) -> (step: LoginStep)
    ensures
        step_follows(
            login_plan(user_store.users(), email@, password@),
            issued_token(email@, settings.secret@, settings.ttl_seconds, now),
            email@,
            step,
        ) || (!S::infallible() && step_refuses(step)),
        step_token_names(step, settings.secret@, email@, now, settings.ttl_seconds),
{
    if user_store.validate_user(email, password).is_err() {
        return LoginStep::Done(Err(AuthAPIError::IncorrectCredentials));
    }
    let user = match user_store.get_user(email) {
        Ok(user) => user,
        Err(_) => {
            return LoginStep::Done(Err(AuthAPIError::IncorrectCredentials));
        },
    };
    if user.requires_2fa {
        LoginStep::SecondFactor(user.email)
    } else {
        LoginStep::Done(handle_no_2fa(&user.email, settings, now))
    }
}

/// Takes the first step of a login request at `now`: parses the email and the
/// password, rejecting malformed input with `InvalidCredentials` before the
/// store is touched, then goes on as [`begin_login`] does.
pub fn check_login<S: UserStore>(
    user_store: &S,
    request: LoginRequest,
    settings: &TokenSettings,
    now: u64,
) -> (step: LoginStep)
    ensures
        !(email_syntax_ok(request.email@) && password_text_ok(request.password@)) ==> (match step {
            LoginStep::Done(r) => fails_with(r, AuthAPIError::InvalidCredentials),
            LoginStep::SecondFactor(_) => false,
        }),
        email_syntax_ok(request.email@) && password_text_ok(request.password@) ==> step_follows(
            login_plan(user_store.users(), request.email@, request.password@),
            issued_token(request.email@, settings.secret@, settings.ttl_seconds, now),
            request.email@,
            step,
        ) || (!S::infallible() && step_refuses(step)),
        lacks_at_sign(request.email@) ==> (match step {
            LoginStep::Done(r) => fails_with(r, AuthAPIError::InvalidCredentials),
            LoginStep::SecondFactor(_) => false,
        }),
        step_token_names(step, settings.secret@, request.email@, now, settings.ttl_seconds),
{
    let email = match Email::parse(request.email.as_str()) {
        Ok(email) => email,
        Err(_) => {
            return LoginStep::Done(Err(AuthAPIError::InvalidCredentials));
        },
    };
    let password = match Password::parse(request.password.as_str()) {
        Ok(password) => password,
        Err(_) => {
            return LoginStep::Done(Err(AuthAPIError::InvalidCredentials));
        },
    };
    begin_login(user_store, &email, &password, settings, now)
}

/// Logs in with validated credentials at `now`: the first step as
/// [`begin_login`] takes it, then the second as [`handle_2fa`] opens it, where
/// one is due. With stores that cannot fail the outcome is what
/// [`login_plan`] asks. A user store that can fail may also have the login
/// refused; a code store that can fail may also have the second step end in
/// `UnexpectedError`. Either way the pending entries are then unchanged.
pub fn login<S: UserStore, T: TwoFACodeStore>(
    user_store: &S,
    two_fa_store: &mut T,
    email: &Email,
    password: &Password,
    settings: &TokenSettings,
    now: u64,
) -> (r: Result<LoginReply, AuthAPIError>)
    ensures
        ({
            ||| login_follows(
                login_plan(user_store.users(), email@, password@),
                issued_token(email@, settings.secret@, settings.ttl_seconds, now),
                email@,
                r,
                old(two_fa_store).codes(),
                final(two_fa_store).codes(),
            )
            ||| {
                &&& !S::infallible()
                &&& fails_with(r, AuthAPIError::IncorrectCredentials)
                &&& final(two_fa_store).codes() == old(two_fa_store).codes()
            }
            ||| {
                &&& !T::infallible()
                &&& login_plan(user_store.users(), email@, password@) is AskSecondFactor
                &&& fails_with(r, AuthAPIError::UnexpectedError)
                &&& final(two_fa_store).codes() == old(two_fa_store).codes()
            }
        }),
        login_token_names(r, settings.secret@, email@, now, settings.ttl_seconds),
{
    match begin_login(user_store, email, password, settings, now) {
        LoginStep::Done(r) => r,
        LoginStep::SecondFactor(next) => handle_2fa(two_fa_store, &next),
    }
}

/// Handles a login request at `now`: the first step as [`check_login`] takes
/// it, then the second as [`handle_2fa`] opens it, where one is due.
pub fn handle_login<S: UserStore, T: TwoFACodeStore>(
    user_store: &S,
    two_fa_store: &mut T,
    request: LoginRequest,
    settings: &TokenSettings,
    now: u64,
) -> (r: Result<LoginReply, AuthAPIError>)
    ensures
        !(email_syntax_ok(request.email@) && password_text_ok(request.password@)) ==> {
            &&& fails_with(r, AuthAPIError::InvalidCredentials)
            &&& final(two_fa_store).codes() == old(two_fa_store).codes()
        },
        email_syntax_ok(request.email@) && password_text_ok(request.password@) ==> {
            ||| login_follows(
                login_plan(user_store.users(), request.email@, request.password@),
                issued_token(request.email@, settings.secret@, settings.ttl_seconds, now),
                request.email@,
                r,
                old(two_fa_store).codes(),
                final(two_fa_store).codes(),
            )
            ||| {
                &&& !S::infallible()
                &&& fails_with(r, AuthAPIError::IncorrectCredentials)
                &&& final(two_fa_store).codes() == old(two_fa_store).codes()
            }
            ||| {
                &&& !T::infallible()
                &&& login_plan(user_store.users(), request.email@, request.password@)
                    is AskSecondFactor
                &&& fails_with(r, AuthAPIError::UnexpectedError)
                &&& final(two_fa_store).codes() == old(two_fa_store).codes()
            }
        },
        lacks_at_sign(request.email@) ==> fails_with(r, AuthAPIError::InvalidCredentials),
        login_token_names(r, settings.secret@, request.email@, now, settings.ttl_seconds),
{
    match check_login(user_store, request, settings, now) {
        LoginStep::Done(r) => r,
        LoginStep::SecondFactor(next) => handle_2fa(two_fa_store, &next),
    }
}

/// A login is refused alike, with `IncorrectCredentials`, whether no user has
/// the email or the password is another.
pub proof fn unknown_user_and_wrong_password_alike(
    users: Map<Seq<char>, UserView>,
    email: Seq<char>,
    password: Seq<char>,
)
    requires
        !users.contains_key(email) || users[email].password != password,
    ensures
        login_plan(users, email, password) is Refuse,
{
}

} // verus!
