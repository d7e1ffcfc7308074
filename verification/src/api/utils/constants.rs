//! Constants of the credential that carries a session token.
use vstd::prelude::*;

verus! {

/// The name of the cookie that carries the session token.
pub const JWT_COOKIE_NAME: &'static str = "jwt";

/// The path that the cookie is valid for: the whole site.
pub const JWT_COOKIE_PATH: &'static str = "/";

} // verus!
