//! The user entity.
use super::email::Email;
use super::password::Password;
use vstd::prelude::*;

verus! {

/// What a [`User`] is worth: the text of its email and password, and its
/// second-factor flag.
pub struct UserView {
    pub email: Seq<char>,
    pub password: Seq<char>,
    pub requires_2fa: bool,
}

/// A registered user. Made at sign-up and never changed afterwards.
#[derive(Debug)]
pub struct User {
    /// The user's email address.
    pub email: Email,
    /// The user's password.
    pub password: Password,
    /// Whether login asks for a second factor.
    pub requires_2fa: bool,
}

impl View for User {
    type V = UserView;

    open spec fn view(&self) -> UserView {
        UserView {
            email: self.email@,
            password: self.password@,
            requires_2fa: self.requires_2fa,
        }
    }
}

impl User {
    /// Puts the three parts together.
    pub fn new(email: Email, password: Password, requires_2fa: bool) -> (user: Self)
        ensures
            user.email == email,
            user.password == password,
            user.requires_2fa == requires_2fa,
    {
        Self { email, password, requires_2fa }
    }
}

impl Clone for User {
    fn clone(&self) -> (r: Self)
        ensures
            r@ == self@,
    {
        User {
            email: self.email.clone(),
            password: self.password.clone(),
            requires_2fa: self.requires_2fa,
        }
    }
}

impl PartialEq for User {
    fn eq(&self, other: &Self) -> (r: bool) {
        self.email == other.email && self.password == other.password && self.requires_2fa
            == other.requires_2fa
    }
}

impl vstd::std_specs::cmp::PartialEqSpecImpl for User {
    open spec fn obeys_eq_spec() -> bool {
        true
    }

    open spec fn eq_spec(&self, other: &Self) -> bool {
        self@ == other@
    }
}

} // verus!
