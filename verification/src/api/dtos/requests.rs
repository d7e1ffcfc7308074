//! What a caller sends.
use vstd::prelude::*;

verus! {

/// A request to register a user.
#[derive(Debug)]
pub struct SignUpRequest {
    /// The user's email address.
    pub email: String,
    /// The user's password.
    pub password: String,
    /// Whether login is to ask for a second factor.
    pub requires_2fa: bool,
}

/// A request to log in.
#[derive(Debug)]
pub struct LoginRequest {
    /// The user's email address.
    pub email: String,
    /// The user's password.
    pub password: String,
}

/// A request to complete a login with the second factor.
#[derive(Debug)]
pub struct Verify2faRequest {
    /// The user's email address.
    pub email: String,
    /// The identifier that the login handed out.
    pub login_attempt_id: String,
    /// The code that was delivered to the user.
    pub _2fa_code: String,
}

/// A request to check a session token.
#[derive(Debug)]
pub struct VerifyTokenRequest {
    /// The token.
    pub token: String,
}

} // verus!
