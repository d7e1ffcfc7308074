//! Email addresses.
use crate::domain::error::AuthAPIError;
use validator::ValidateEmail;
use vstd::prelude::*;

verus! {

/// Whether `s` is an email address by the rules of the HTML5 specification:
/// the verdict of `validator::ValidateEmail::validate_email` on `s`.
pub uninterp spec fn email_syntax_ok(s: Seq<char>) -> bool;

/// Whether `s` is empty or holds no `@`. Such a string is no email address.
pub open spec fn lacks_at_sign(s: Seq<char>) -> bool {
    s.len() == 0 || !s.contains('@')
}

/// Whether `s` can be the text of an [`Email`]: the syntax check accepts it,
/// and so it is not empty and holds an `@`.
pub open spec fn email_text_ok(s: Seq<char>) -> bool {
    &&& email_syntax_ok(s)
    &&& !lacks_at_sign(s)
}

/// A syntactically valid email address, kept as it was given. It is the key
/// under which users and pending second-factor codes are stored.
#[derive(Debug, Hash)]
pub struct Email(String);

impl View for Email {
    type V = Seq<char>;

    closed spec fn view(&self) -> Seq<char> {
        self.0@
    }
}

impl Email {
    #[verifier::type_invariant]
    spec fn accepted(&self) -> bool {
        email_text_ok(self.0@)
    }

    /// Accepts `s` as an email address if the syntax check passes it, and
    /// rejects it with `InvalidEmail` otherwise. A string that is empty or
    /// holds no `@` is always rejected.
    pub fn parse(s: &str) -> (r: Result<Self, AuthAPIError>)
        ensures
            match r {
                Ok(email) => email_text_ok(s@) && email@ == s@,
                Err(e) => !email_syntax_ok(s@) && e == AuthAPIError::InvalidEmail,
            },
            lacks_at_sign(s@) ==> r is Err,
    {
        let accepted = is_email(s);
        Self::from_verdict(s, accepted)
    }

    /// Makes the address from `s` and the verdict `accepted` of the syntax
    /// check on it.
    pub fn from_verdict(s: &str, accepted: bool) -> (r: Result<Self, AuthAPIError>)
        requires
            accepted ==> email_text_ok(s@),
        ensures
            match r {
                Ok(email) => accepted && email@ == s@,
                Err(e) => !accepted && e == AuthAPIError::InvalidEmail,
            },
    {
        if accepted {
            Ok(Email(s.to_owned()))
        } else {
            Err(AuthAPIError::InvalidEmail)
        }
    }

    /// The address's text.
    pub fn as_ref(&self) -> (s: &str)
        ensures
            s@ == self@,
            email_text_ok(s@),
    {
        proof {
            use_type_invariant(self);
        }
        self.0.as_str()
    }
}

impl Clone for Email {
    fn clone(&self) -> (r: Self)
        ensures
            r@ == self@,
    {
        proof {
            use_type_invariant(self);
        }
        Email(self.0.clone())
    }
}

impl PartialEq for Email {
    fn eq(&self, other: &Self) -> (r: bool) {
        self.0 == other.0
    }
}

impl vstd::std_specs::cmp::PartialEqSpecImpl for Email {
    open spec fn obeys_eq_spec() -> bool {
        true
    }

    open spec fn eq_spec(&self, other: &Self) -> bool {
        self@ == other@
    }
}

impl Eq for Email {

}

/// `validator::ValidateEmail::validate_email` on a string slice. The result
/// is the crate's verdict on `s`, which depends on `s` alone. The crate
/// answers `false` at once for an empty string and for one without an `@`.
#[verifier::external_body]
fn is_email(s: &str) -> (ok: bool)
    ensures
        ok == email_syntax_ok(s@),
        ok ==> !lacks_at_sign(s@),
{
    s.validate_email()
}

} // verus!
