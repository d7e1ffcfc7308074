//! The failure kinds that an operation of the service reports to its caller.
use vstd::prelude::*;

verus! {

/// A stable, enumerable reason for rejecting an operation.
#[derive(Debug, Clone, Copy, PartialEq, Eq, Structural)]
pub enum AuthAPIError {
    /// The password does not meet the password rule.
    InvalidPassword,
    /// The email address is not syntactically valid.
    InvalidEmail,
    /// A user with the given email is already registered.
    UserAlreadyExists,
    /// Some input is malformed.
    InvalidCredentials,
    /// The credentials name no user, or do not match the stored ones.
    IncorrectCredentials,
    /// No session token was presented.
    MissingToken,
    /// The session token is revoked, expired, or not one of ours.
    InvalidToken,
    /// A collaborator malfunctioned.
    UnexpectedError,
}

impl AuthAPIError {
    /// The HTTP status that stands for this failure.
    pub open spec fn spec_status_code(&self) -> u16 {
        match self {
            AuthAPIError::InvalidPassword => 400,
            AuthAPIError::InvalidEmail => 400,
            AuthAPIError::UserAlreadyExists => 409,
            AuthAPIError::InvalidCredentials => 400,
            AuthAPIError::IncorrectCredentials => 401,
            AuthAPIError::MissingToken => 400,
            AuthAPIError::InvalidToken => 401,
            AuthAPIError::UnexpectedError => 500,
        }
    }

    /// The fixed text shown to the caller for this failure.
    pub open spec fn spec_message(&self) -> Seq<char> {
        match self {
            AuthAPIError::InvalidPassword => "Invalid password"@,
            AuthAPIError::InvalidEmail => "Invalid email address"@,
            AuthAPIError::UserAlreadyExists => "User already exists"@,
            AuthAPIError::InvalidCredentials => "Invalid credentials"@,
            AuthAPIError::IncorrectCredentials => "Incorrect credentials"@,
            AuthAPIError::MissingToken => "Missing token"@,
            AuthAPIError::InvalidToken => "Invalid token"@,
            AuthAPIError::UnexpectedError => "Unexpected error"@,
        }
    }

    /// Returns the HTTP status that stands for this failure.
    #[verifier::when_used_as_spec(spec_status_code)]
    pub fn status_code(&self) -> (code: u16)
        ensures
            code == self.spec_status_code(),
    {
        match self {
            AuthAPIError::InvalidPassword => 400,
            AuthAPIError::InvalidEmail => 400,
            AuthAPIError::UserAlreadyExists => 409,
            AuthAPIError::InvalidCredentials => 400,
            AuthAPIError::IncorrectCredentials => 401,
            AuthAPIError::MissingToken => 400,
            AuthAPIError::InvalidToken => 401,
            AuthAPIError::UnexpectedError => 500,
        }
    }

    /// Returns the fixed text shown to the caller for this failure.
    pub fn message(&self) -> (text: &'static str)
        ensures
            text@ == self.spec_message(),
    {
        match self {
            AuthAPIError::InvalidPassword => "Invalid password",
            AuthAPIError::InvalidEmail => "Invalid email address",
            AuthAPIError::UserAlreadyExists => "User already exists",
            AuthAPIError::InvalidCredentials => "Invalid credentials",
            AuthAPIError::IncorrectCredentials => "Incorrect credentials",
            AuthAPIError::MissingToken => "Missing token",
            AuthAPIError::InvalidToken => "Invalid token",
            AuthAPIError::UnexpectedError => "Unexpected error",
        }
    }
}

/// The failure that `r` reports, if it reports one.
pub open spec fn failure_of<T>(r: Result<T, AuthAPIError>) -> Option<AuthAPIError> {
    match r {
        Ok(_) => None,
        Err(e) => Some(e),
    }
}

/// Whether `r` reports the failure `e`.
pub open spec fn fails_with<T>(r: Result<T, AuthAPIError>, e: AuthAPIError) -> bool {
    r matches Err(reported) && reported == e
}

} // verus!
