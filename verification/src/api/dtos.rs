//! The shapes of requests and replies.
mod requests;
mod responses;

pub use requests::{LoginRequest, SignUpRequest, Verify2faRequest, VerifyTokenRequest};
pub use responses::{ErrorResponse, MFARequiredResponse, SignUpResponse};
