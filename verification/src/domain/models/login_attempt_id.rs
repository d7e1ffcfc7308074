//! Login attempt identifiers.
use uuid::Uuid;
use vstd::prelude::*;

verus! {

/// What `uuid::Uuid::parse_str` makes of `s`, with either outcome written out
/// as text: the hyphenated lower-case form of the UUID that `s` denotes, or
/// the message of the parse error.
pub uninterp spec fn uuid_text(s: Seq<char>) -> Result<Seq<char>, Seq<char>>;

/// Whether `s` is the hyphenated lower-case form of a UUID: parsing it gives
/// back `s` itself.
pub open spec fn is_uuid_text(s: Seq<char>) -> bool {
    uuid_text(s) == Ok::<Seq<char>, Seq<char>>(s)
}

/// Whether `s` is the hyphenated lower-case form of a random (version 4)
/// UUID: 36 characters, with the version `4` at the head of the third group
/// and the variant in the first character of the fourth.
pub open spec fn is_v4_uuid_text(s: Seq<char>) -> bool {
    &&& is_uuid_text(s)
    &&& s.len() == 36
    &&& s[14] == '4'
    &&& (s[19] == '8' || s[19] == '9' || s[19] == 'a' || s[19] == 'b')
}

/// The identifier of one login attempt: a UUID in its hyphenated lower-case
/// form. It ties the attempt to the second-factor code issued for it.
#[derive(Debug)]
pub struct LoginAttemptId(String);

impl View for LoginAttemptId {
    type V = Seq<char>;

    closed spec fn view(&self) -> Seq<char> {
        self.0@
    }
}

impl LoginAttemptId {
    #[verifier::type_invariant]
    spec fn canonical(&self) -> bool {
        is_uuid_text(self.0@)
    }

    /// Accepts `id` if it denotes a UUID, in any of the forms that the parser
    /// reads, and keeps the hyphenated lower-case form of that UUID. Rejects
    /// it with the parser's message otherwise.
    pub fn parse(id: String) -> (r: Result<Self, String>)
        ensures
            match (r, uuid_text(id@)) {
                (Ok(parsed), Ok(text)) => parsed@ == text,
                (Err(message), Err(reason)) => message@ == reason,
                _ => false,
            },
    {
        Self::from_parsed(parse_uuid(id.as_str()))
    }

    /// Makes the identifier from the outcome of parsing: the hyphenated form
    /// of the UUID, or the error's message, which is handed on.
    pub fn from_parsed(parsed: Result<String, String>) -> (r: Result<Self, String>)
        requires
            parsed matches Ok(text) ==> is_uuid_text(text@),
        ensures
            match (r, parsed) {
                (Ok(id), Ok(text)) => id@ == text@,
                (Err(message), Err(reason)) => message@ == reason@,
                _ => false,
            },
    {
        match parsed {
            Ok(text) => Ok(LoginAttemptId(text)),
            Err(reason) => Err(reason),
        }
    }

    /// The identifier's text.
    pub fn as_ref(&self) -> (s: &str)
        ensures
            s@ == self@,
            is_uuid_text(s@),
    {
        proof {
            use_type_invariant(self);
        }
        self.0.as_str()
    }
}

impl Default for LoginAttemptId {
    /// A fresh random identifier: a version-4 UUID.
    fn default() -> (r: Self)
        ensures
            is_v4_uuid_text(r@),
    {
        LoginAttemptId(random_uuid())
    }
}

impl Clone for LoginAttemptId {
    fn clone(&self) -> (r: Self)
        ensures
            r@ == self@,
    {
        proof {
            use_type_invariant(self);
        }
        LoginAttemptId(self.0.clone())
    }
}

impl PartialEq for LoginAttemptId {
    fn eq(&self, other: &Self) -> (r: bool) {
        self.0 == other.0
    }
}

impl vstd::std_specs::cmp::PartialEqSpecImpl for LoginAttemptId {
    open spec fn obeys_eq_spec() -> bool {
        true
    }

    open spec fn eq_spec(&self, other: &Self) -> bool {
        self@ == other@
    }
}

/// `uuid::Uuid::parse_str`, with either outcome turned into text by its
/// `Display` impl. A UUID is displayed in hyphenated lower-case form, which
/// the parser reads back as the same UUID.
#[verifier::external_body]
fn parse_uuid(id: &str) -> (r: Result<String, String>)
    ensures
        match (r, uuid_text(id@)) {
            (Ok(text), Ok(named)) => text@ == named,
            (Err(message), Err(named)) => message@ == named,
            _ => false,
        },
        r matches Ok(text) ==> is_uuid_text(text@),
{
    match Uuid::parse_str(id) {
        Ok(value) => Ok(value.to_string()),
        Err(e) => Err(e.to_string()),
    }
}

/// `uuid::Uuid::new_v4`, displayed: a random UUID in hyphenated lower-case
/// form, which the parser reads back as the same UUID. The crate sets the
/// version to 4 and the variant to that of RFC 4122; the rest is left open.
/// The call draws from the operating system's random source and panics if
/// that source fails.
#[verifier::external_body]
fn random_uuid() -> (text: String)
    ensures
        is_v4_uuid_text(text@),
{
    Uuid::new_v4().to_string()
}

} // verus!
