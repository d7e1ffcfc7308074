//! The users, in a hash map.
use crate::domain::models::{Email, Password, User, UserView};
use crate::domain::ports::{credentials_match, UserStore, UserStoreError};
use vstd::hash_map::StringHashMap;
use vstd::prelude::*;

verus! {

/// A user store that keeps the users in memory, each under its email.
pub struct HashmapUserStore {
    users: StringHashMap<User>,
}

impl HashmapUserStore {
    /// Every user is filed under its own email.
    #[verifier::type_invariant]
    spec fn filed_by_email(&self) -> bool {
        forall|key: Seq<char>| #[trigger]
            self.users@.contains_key(key) ==> self.users@[key].email@ == key
    }

    /// An empty store.
    pub fn new() -> (store: Self)
        ensures
            store.users() == Map::<Seq<char>, UserView>::empty(),
    {
        let store = HashmapUserStore { users: StringHashMap::new() };
        assert(store.users() =~= Map::<Seq<char>, UserView>::empty());
        store
    }
}

impl Default for HashmapUserStore {
    fn default() -> (store: Self)
        ensures
            store.users() == Map::<Seq<char>, UserView>::empty(),
    {
        HashmapUserStore::new()
    }
}

impl UserStore for HashmapUserStore {
    closed spec fn users(&self) -> Map<Seq<char>, UserView> {
        self.users@.map_values(|user: User| user@)
    }

    open spec fn infallible() -> bool {
        true
    }

    fn add_user(&mut self, user: &User) -> (r: Result<(), UserStoreError>) {
        proof {
            use_type_invariant(&*self);
        }
        if self.users.contains_key(user.email.as_ref()) {
            return Err(UserStoreError::UserAlreadyExists);
        }
        let mut users = StringHashMap::new();
        std::mem::swap(&mut users, &mut self.users);
        users.insert(user.email.as_ref().to_owned(), user.clone());
        self.users = users;
        assert(self.users() =~= old(self).users().insert(user.email@, user@));
        Ok(())
    }

    fn get_user(&self, email: &Email) -> (r: Result<User, UserStoreError>) {
        proof {
            use_type_invariant(self);
        }
        match self.users.get(email.as_ref()) {
            Some(value) => Ok(value.clone()),
            None => Err(UserStoreError::UserNotFound),
        }
    }

    fn validate_user(&self, email: &Email, password: &Password) -> (r: Result<
        (),
        UserStoreError,
    >) {
        match self.users.get(email.as_ref()) {
            Some(user) => {
                if user.password == *password {
                    Ok(())
                } else {
                    Err(UserStoreError::InvalidCredentials)
                }
            },
            None => Err(UserStoreError::UserNotFound),
        }
    }
}

} // verus!
