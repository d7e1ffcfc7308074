//! Interfaces of the stores that the service depends on.
//!
//! Each store is described by the mathematical value it holds and by what
//! every operation does to that value. A store may fail with its
//! `UnexpectedError` unless it declares itself infallible; a failed operation
//! leaves the store as it was.
//!
//! A store states its value and whether it is infallible by defining the two
//! specification functions of its interface. Their defaults stand for a store
//! of which nothing is known: it may fail, and its value is some fixed one,
//! so that no change of it can be shown.
use super::models::{Email, LoginAttemptId, Password, TwoFACode, User, UserView};
use vstd::prelude::*;

verus! {

/// Why an operation of a user store failed.
#[derive(Debug, Clone, Copy, PartialEq, Eq, Structural)]
pub enum UserStoreError {
    /// A user with the given email is already registered.
    UserAlreadyExists,
    /// No user has the given email.
    UserNotFound,
    /// The user exists, but the password is another.
    InvalidCredentials,
    /// The store malfunctioned.
    UnexpectedError,
}

/// Why an operation of a banned-token store failed.
#[derive(Debug, Clone, Copy, PartialEq, Eq, Structural)]
pub enum BannedStoreError {
    /// The store malfunctioned.
    UnexpectedError,
}

/// Why an operation of a second-factor code store failed.
#[derive(Debug, Clone, Copy, PartialEq, Eq, Structural)]
pub enum TwoFACodeStoreError {
    /// No code is pending for the given email.
    LoginAttemptIdNotFound,
    /// The store malfunctioned.
    UnexpectedError,
}

/// Whether `users` holds a user under `email` whose password is `password`.
pub open spec fn credentials_match(
    users: Map<Seq<char>, UserView>,
    email: Seq<char>,
    password: Seq<char>,
) -> bool {
    users.contains_key(email) && users[email].password == password
}

/// The registered users, at most one for each email.
pub trait UserStore: Sized {
    /// The users in the store, each under the text of its email. By default
    /// some fixed value.
    open spec fn users(&self) -> Map<Seq<char>, UserView> {
        arbitrary()
    }

    /// Whether no operation of this kind of store ever fails with
    /// `UnexpectedError`. By default it may.
    open spec fn infallible() -> bool {
        false
    }

    /// Registers `user`, unless its email is taken.
    fn add_user(&mut self, user: &User) -> (r: Result<(), UserStoreError>)
        ensures
            match r {
                Ok(()) => {
                    &&& !old(self).users().contains_key(user.email@)
                    &&& final(self).users() == old(self).users().insert(user.email@, user@)
                },
                Err(UserStoreError::UserAlreadyExists) => {
                    &&& old(self).users().contains_key(user.email@)
                    &&& final(self).users() == old(self).users()
                },
                Err(UserStoreError::UnexpectedError) => {
                    &&& !Self::infallible()
                    &&& final(self).users() == old(self).users()
                },
                Err(_) => false,
            },
    ;

    /// Looks up the user registered under `email`.
    fn get_user(&self, email: &Email) -> (r: Result<User, UserStoreError>)
        ensures
            match r {
                Ok(user) => {
                    &&& self.users().contains_key(email@)
                    &&& user@ == self.users()[email@]
                    &&& user.email@ == email@
                },
                Err(UserStoreError::UserNotFound) => !self.users().contains_key(email@),
                Err(UserStoreError::UnexpectedError) => !Self::infallible(),
                Err(_) => false,
            },
    ;

    /// Checks that a user is registered under `email` with `password`.
    fn validate_user(&self, email: &Email, password: &Password) -> (r: Result<
        (),
        UserStoreError,
    >)
        ensures
            match r {
                Ok(()) => credentials_match(self.users(), email@, password@),
                Err(UserStoreError::UserNotFound) => !self.users().contains_key(email@),
                Err(UserStoreError::InvalidCredentials) => {
                    &&& self.users().contains_key(email@)
                    &&& self.users()[email@].password != password@
                },
                Err(UserStoreError::UnexpectedError) => !Self::infallible(),
                Err(UserStoreError::UserAlreadyExists) => false,
            },
    ;
}

/// The session tokens that were revoked.
pub trait BannedStore: Sized {
    /// The revoked tokens. By default some fixed value.
    open spec fn tokens(&self) -> Set<Seq<char>> {
        arbitrary()
    }

    /// Whether no operation of this kind of store ever fails. By default it
    /// may.
    open spec fn infallible() -> bool {
        false
    }

    /// Tells whether `token` was revoked.
    fn is_banned(&self, token: &str) -> (r: Result<bool, BannedStoreError>)
        ensures
            match r {
                Ok(banned) => banned == self.tokens().contains(token@),
                Err(_) => !Self::infallible(),
            },
    ;

    /// Revokes `token`. Revoking a revoked token changes nothing.
    fn add_token(&mut self, token: &str) -> (r: Result<(), BannedStoreError>)
        ensures
            match r {
                Ok(()) => final(self).tokens() == old(self).tokens().insert(token@),
                Err(_) => !Self::infallible() && final(self).tokens() == old(self).tokens(),
            },
    ;
}

/// The pending second-factor entries, at most one for each email: the
/// identifier of the login attempt and the code issued for it.
pub trait TwoFACodeStore: Sized {
    /// The pending entries, each under the text of its email. By default
    /// some fixed value.
    open spec fn codes(&self) -> Map<Seq<char>, (Seq<char>, Seq<char>)> {
        arbitrary()
    }

    /// Whether no operation of this kind of store ever fails with
    /// `UnexpectedError`. By default it may.
    open spec fn infallible() -> bool {
        false
    }

    /// Makes `(login_attempt_id, code)` the pending entry of `email`, in place
    /// of any earlier one.
    fn add_code(&mut self, email: Email, login_attempt_id: LoginAttemptId, code: TwoFACode) -> (r:
        Result<(), TwoFACodeStoreError>)
        ensures
            match r {
                Ok(()) => final(self).codes() == old(self).codes().insert(
                    email@,
                    (login_attempt_id@, code@),
                ),
                Err(TwoFACodeStoreError::UnexpectedError) => {
                    &&& !Self::infallible()
                    &&& final(self).codes() == old(self).codes()
                },
                Err(TwoFACodeStoreError::LoginAttemptIdNotFound) => false,
            },
    ;

    /// Drops the pending entry of `email`, if there is one.
    fn remove_code(&mut self, email: &Email) -> (r: Result<(), TwoFACodeStoreError>)
        ensures
            match r {
                Ok(()) => final(self).codes() == old(self).codes().remove(email@),
                Err(TwoFACodeStoreError::UnexpectedError) => {
                    &&& !Self::infallible()
                    &&& final(self).codes() == old(self).codes()
                },
                Err(TwoFACodeStoreError::LoginAttemptIdNotFound) => false,
            },
    ;

    /// Looks up the pending entry of `email`.
    fn get_code(&self, email: &Email) -> (r: Result<
        (LoginAttemptId, TwoFACode),
        TwoFACodeStoreError,
    >)
        ensures
            match r {
                Ok((login_attempt_id, code)) => {
                    &&& self.codes().contains_key(email@)
                    &&& self.codes()[email@] == (login_attempt_id@, code@)
                },
                Err(TwoFACodeStoreError::LoginAttemptIdNotFound) => !self.codes().contains_key(
                    email@,
                ),
                Err(TwoFACodeStoreError::UnexpectedError) => !Self::infallible(),
            },
    ;
}

/// Delivers messages to users out of band.
pub trait EmailClient: Sized {
    /// Sends `content` under `subject` to `recipient`. An error carries the
    /// reason as text.
    fn send_email(&self, recipient: &Email, subject: &str, content: &str) -> (r: Result<
        (),
        String,
    >);
}

} // verus!
