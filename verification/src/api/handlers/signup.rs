//! Sign-up.
use crate::api::dtos::{SignUpRequest, SignUpResponse};
use crate::domain::error::{fails_with, failure_of, AuthAPIError};
use crate::domain::models::{
    email_syntax_ok, lacks_at_sign, password_text_ok, Email, Password, User, UserView,
};
use crate::domain::ports::{credentials_match, UserStore};
use vstd::prelude::*;

verus! {

/// The confirmation that a successful sign-up carries.
pub const SIGNUP_MESSAGE: &'static str = "User created successfully!";

/// Registering `user` where `users` are registered: the failure, if any, and
/// the users afterwards.
pub open spec fn signup_step(users: Map<Seq<char>, UserView>, user: UserView) -> (
    Option<AuthAPIError>,
    Map<Seq<char>, UserView>,
) {
    if users.contains_key(user.email) {
        (Some(AuthAPIError::UserAlreadyExists), users)
    } else {
        (None, users.insert(user.email, user))
    }
}

/// Whether the email and the password of a sign-up request are well formed.
pub open spec fn signup_input_ok(email: Seq<char>, password: Seq<char>) -> bool {
    email_syntax_ok(email) && password_text_ok(password)
}

/// A sign-up request where `users` are registered: the failure, if any, and
/// the users afterwards.
pub open spec fn signup_request_step(
    users: Map<Seq<char>, UserView>,
    email: Seq<char>,
    password: Seq<char>,
    requires_2fa: bool,
) -> (Option<AuthAPIError>, Map<Seq<char>, UserView>) {
    if signup_input_ok(email, password) {
        signup_step(users, UserView { email, password, requires_2fa })
    } else {
        (Some(AuthAPIError::InvalidCredentials), users)
    }
}

/// Registers `user`. With a store that cannot fail, the outcome is
/// [`signup_step`]; another store may also fail with `UnexpectedError`, and
/// is then unchanged.
pub fn signup<S: UserStore>(user_store: &mut S, user: &User) -> (r: Result<
    (u16, SignUpResponse),
    AuthAPIError,
>)
    ensures
        (failure_of(r), final(user_store).users()) == signup_step(old(user_store).users(), user@)
            || (!S::infallible() && r == Err::<(u16, SignUpResponse), AuthAPIError>(
            AuthAPIError::UnexpectedError,
        ) && final(user_store).users() == old(user_store).users()),
        r matches Ok(reply) ==> reply.0 == 201 && reply.1.message@ == SIGNUP_MESSAGE@,
{
    if user_store.get_user(&user.email).is_ok() {
        return Err(AuthAPIError::UserAlreadyExists);
    }
    if user_store.add_user(user).is_err() {
        return Err(AuthAPIError::UnexpectedError);
    }
    Ok((201, SignUpResponse { message: SIGNUP_MESSAGE.to_owned() }))
}

/// Handles a sign-up request: parses the email and the password, rejecting
/// malformed input with `InvalidCredentials` before the store is touched,
/// whatever the store, then registers the user as [`signup`] does. With a
/// store that cannot fail, the outcome is [`signup_request_step`].
pub fn handle_signup<S: UserStore>(user_store: &mut S, request: SignUpRequest) -> (r: Result<
    (u16, SignUpResponse),
    AuthAPIError,
>)
    ensures
        !signup_input_ok(request.email@, request.password@) ==> {
            &&& fails_with(r, AuthAPIError::InvalidCredentials)
            &&& final(user_store).users() == old(user_store).users()
        },
        signup_input_ok(request.email@, request.password@) ==> {
            ||| (failure_of(r), final(user_store).users()) == signup_request_step(
                old(user_store).users(),
                request.email@,
                request.password@,
                request.requires_2fa,
            )
            ||| {
                &&& !S::infallible()
                &&& fails_with(r, AuthAPIError::UnexpectedError)
                &&& final(user_store).users() == old(user_store).users()
            }
        },
        r matches Ok(reply) ==> reply.0 == 201 && reply.1.message@ == SIGNUP_MESSAGE@,
        lacks_at_sign(request.email@) ==> !signup_input_ok(request.email@, request.password@),
{
    let email = match Email::parse(request.email.as_str()) {
        Ok(email) => email,
        Err(_) => {
            return Err(AuthAPIError::InvalidCredentials);
        },
    };
    let password = match Password::parse(request.password.as_str()) {
        Ok(password) => password,
        Err(_) => {
            return Err(AuthAPIError::InvalidCredentials);
        },
    };
    let user = User::new(email, password, request.requires_2fa);
    signup(user_store, &user)
}

/// A second sign-up under an email that a first one registered is rejected
/// with `UserAlreadyExists`, whatever else it asks for, and leaves the users
/// as the first one left them: the user is not stored twice, nor replaced.
pub proof fn signup_twice_is_rejected(
    users: Map<Seq<char>, UserView>,
    first: UserView,
    second: UserView,
)
    requires
        first.email == second.email,
        signup_step(users, first).0 is None,
    ensures
        signup_step(signup_step(users, first).1, second) == (
            Some(AuthAPIError::UserAlreadyExists),
            signup_step(users, first).1,
        ),
        signup_step(users, first).1[first.email] == first,
{
}

/// The users after the sign-ups of `batch` were served one after another,
/// starting from `users`.
pub open spec fn signup_all(users: Map<Seq<char>, UserView>, batch: Seq<UserView>) -> Map<
    Seq<char>,
    UserView,
>
    decreases batch.len(),
{
    if batch.len() == 0 {
        users
    } else {
        signup_step(signup_all(users, batch.drop_last()), batch.last()).1
    }
}

/// The failure, if any, of the sign-up at place `i` of `batch`, served after
/// those before it.
pub open spec fn signup_failure_at(users: Map<Seq<char>, UserView>, batch: Seq<UserView>, i: int)
    -> Option<AuthAPIError> {
    signup_step(signup_all(users, batch.take(i)), batch[i]).0
}

/// After a batch of sign-ups an email is registered exactly if it was before
/// or the batch holds a sign-up for it.
pub proof fn signup_all_registers(
    users: Map<Seq<char>, UserView>,
    batch: Seq<UserView>,
    email: Seq<char>,
)
    ensures
        signup_all(users, batch).contains_key(email) <==> users.contains_key(email) || exists|
            j: int,
        |
            0 <= j < batch.len() && (#[trigger] batch[j]).email == email,
    decreases batch.len(),
{
    if batch.len() > 0 {
        let front = batch.drop_last();
        signup_all_registers(users, front, email);
        if signup_all(users, batch).contains_key(email) && !users.contains_key(email) {
            if batch.last().email == email {
                assert(batch[batch.len() - 1].email == email);
            } else {
                let j = choose|j: int| 0 <= j < front.len() && (#[trigger] front[j]).email == email;
                assert(batch[j].email == email);
            }
        }
        if exists|j: int| 0 <= j < batch.len() && (#[trigger] batch[j]).email == email {
            let j = choose|j: int| 0 <= j < batch.len() && (#[trigger] batch[j]).email == email;
            if j < front.len() {
                assert(front[j].email == email);
            }
        }
    }
}

/// Sign-ups under emails that differ from one another, none of them
/// registered before, all succeed, in whatever order they are served.
pub proof fn signups_with_distinct_emails_all_succeed(
    users: Map<Seq<char>, UserView>,
    batch: Seq<UserView>,
)
    requires
        forall|i: int| 0 <= i < batch.len() ==> !users.contains_key((#[trigger] batch[i]).email),
        forall|i: int, j: int|
            0 <= i < j < batch.len() ==> (#[trigger] batch[i]).email != (#[trigger] batch[j]).email,
    ensures
        forall|i: int|
            0 <= i < batch.len() ==> (#[trigger] signup_failure_at(users, batch, i)) is None,
{
    assert forall|i: int| 0 <= i < batch.len() implies (#[trigger] signup_failure_at(
        users,
        batch,
        i,
    )) is None by {
        signup_all_registers(users, batch.take(i), batch[i].email);
        if exists|j: int|
            0 <= j < batch.take(i).len() && (#[trigger] batch.take(i)[j]).email == batch[i].email {
            let j = choose|j: int|
                0 <= j < batch.take(i).len() && (#[trigger] batch.take(i)[j]).email
                    == batch[i].email;
            assert(batch[j].email == batch[i].email);
        }
    }
}

/// Of sign-ups that race for one email, not registered before, exactly one
/// succeeds: the one served first. Every other is rejected with
/// `UserAlreadyExists`, and the user stored is the one of the first.
pub proof fn signups_with_one_email_succeed_once(
    users: Map<Seq<char>, UserView>,
    batch: Seq<UserView>,
    email: Seq<char>,
)
    requires
        batch.len() > 0,
        !users.contains_key(email),
        forall|i: int| 0 <= i < batch.len() ==> (#[trigger] batch[i]).email == email,
    ensures
        signup_failure_at(users, batch, 0) is None,
        forall|i: int|
            1 <= i < batch.len() ==> (#[trigger] signup_failure_at(users, batch, i)) == Some(
                AuthAPIError::UserAlreadyExists,
            ),
        signup_all(users, batch) == users.insert(email, batch[0]),
    decreases batch.len(),
{
    assert(batch.take(0).len() == 0);
    assert(signup_all(users, batch.take(0)) == users);
    assert forall|i: int| 1 <= i < batch.len() implies (#[trigger] signup_failure_at(
        users,
        batch,
        i,
    )) == Some(AuthAPIError::UserAlreadyExists) by {
        signup_all_registers(users, batch.take(i), email);
        assert(batch.take(i)[0].email == email);
    }
    if batch.len() == 1 {
        assert(batch.drop_last().len() == 0);
        assert(signup_all(users, batch.drop_last()) == users);
    } else {
        let front = batch.drop_last();
        assert forall|i: int| 0 <= i < front.len() implies (#[trigger] front[i]).email
            == email by {
            assert(batch[i].email == email);
        }
        signups_with_one_email_succeed_once(users, front, email);
        assert(front[0] == batch[0]);
    }
}

/// A user who has signed up can log in with the same credentials: the login
/// is not refused, and it asks for the second factor exactly if the sign-up
/// asked for one.
pub proof fn login_after_signup_is_not_refused(users: Map<Seq<char>, UserView>, user: UserView)
    requires
        signup_step(users, user).0 is None,
    ensures
        credentials_match(signup_step(users, user).1, user.email, user.password),
        signup_step(users, user).1[user.email].requires_2fa == user.requires_2fa,
{
}

} // verus!
