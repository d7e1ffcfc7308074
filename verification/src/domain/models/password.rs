//! Passwords.
use crate::domain::error::AuthAPIError;
use vstd::prelude::*;
use vstd::string::StrSliceExecFns;

verus! {

/// The least number of characters a password may have.
pub const MIN_PASSWORD_CHARS: usize = 8;

/// Whether `s` is long enough to serve as a password.
pub open spec fn password_text_ok(s: Seq<char>) -> bool {
    s.len() >= MIN_PASSWORD_CHARS
}

/// A password: a string of at least [`MIN_PASSWORD_CHARS`] characters, kept as
/// it was given.
#[derive(Debug)]
pub struct Password(String);

impl View for Password {
    type V = Seq<char>;

    closed spec fn view(&self) -> Seq<char> {
        self.0@
    }
}

impl Password {
    #[verifier::type_invariant]
    spec fn long_enough(&self) -> bool {
        password_text_ok(self.0@)
    }

    /// Accepts `s` as a password if it has at least [`MIN_PASSWORD_CHARS`]
    /// characters, and rejects it with `InvalidPassword` otherwise.
    pub fn parse(s: &str) -> (r: Result<Self, AuthAPIError>)
        ensures
            match r {
                Ok(password) => password_text_ok(s@) && password@ == s@,
                Err(e) => !password_text_ok(s@) && e == AuthAPIError::InvalidPassword,
            },
    {
        if validate_password(s) {
            Ok(Password(s.to_owned()))
        } else {
            Err(AuthAPIError::InvalidPassword)
        }
    }

    /// The password's text.
    pub fn as_ref(&self) -> (s: &str)
        ensures
            s@ == self@,
            password_text_ok(s@),
    {
        proof {
            use_type_invariant(self);
        }
        self.0.as_str()
    }
}

impl Clone for Password {
    fn clone(&self) -> (r: Self)
        ensures
            r@ == self@,
    {
        proof {
            use_type_invariant(self);
        }
        Password(self.0.clone())
    }
}

impl PartialEq for Password {
    fn eq(&self, other: &Self) -> (r: bool) {
        self.0 == other.0
    }
}

impl vstd::std_specs::cmp::PartialEqSpecImpl for Password {
    open spec fn obeys_eq_spec() -> bool {
        true
    }

    open spec fn eq_spec(&self, other: &Self) -> bool {
        self@ == other@
    }
}

/// Tells whether `s` has at least [`MIN_PASSWORD_CHARS`] characters.
pub fn validate_password(s: &str) -> (ok: bool)
    ensures
        ok == password_text_ok(s@),
{
    s.unicode_len() >= MIN_PASSWORD_CHARS
}

} // verus!
