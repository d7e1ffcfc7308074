//! What a caller gets back.
use crate::domain::error::AuthAPIError;
use vstd::prelude::*;

verus! {

/// The reply to a successful sign-up.
#[derive(Debug, PartialEq, Eq)]
pub struct SignUpResponse {
    /// The confirmation.
    pub message: String,
}

/// The reply to a login that needs a second factor.
#[derive(Debug, PartialEq, Eq)]
pub struct MFARequiredResponse {
    /// The notice.
    pub message: String,
    /// The identifier of the login attempt.
    pub login_attempt_id: String,
}

/// The reply to a rejected operation.
#[derive(Debug, PartialEq, Eq)]
pub struct ErrorResponse {
    /// The failure's fixed text.
    pub error: String,
}

impl AuthAPIError {
    /// The status and body that answer a rejected operation.
    pub fn into_response(self) -> (r: (u16, ErrorResponse))
        ensures
            r.0 == self.spec_status_code(),
            r.1.error@ == self.spec_message(),
    {
        (self.status_code(), ErrorResponse { error: self.message().to_owned() })
    }
}

} // verus!
