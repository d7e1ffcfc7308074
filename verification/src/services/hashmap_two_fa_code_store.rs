//! The pending second-factor entries, in a hash map.
use crate::domain::models::{Email, LoginAttemptId, TwoFACode};
use crate::domain::ports::{TwoFACodeStore, TwoFACodeStoreError};
use vstd::hash_map::StringHashMap;
use vstd::prelude::*;

verus! {

/// A second-factor code store that keeps the pending entries in memory, each
/// under its email.
pub struct HashmapTwoFACodeStore {
    codes: StringHashMap<(LoginAttemptId, TwoFACode)>,
}

impl HashmapTwoFACodeStore {
    /// An empty store.
    pub fn new() -> (store: Self)
        ensures
            store.codes() == Map::<Seq<char>, (Seq<char>, Seq<char>)>::empty(),
    {
        let store = HashmapTwoFACodeStore { codes: StringHashMap::new() };
        assert(store.codes() =~= Map::<Seq<char>, (Seq<char>, Seq<char>)>::empty());
        store
    }
}

impl Default for HashmapTwoFACodeStore {
    fn default() -> (store: Self)
        ensures
            store.codes() == Map::<Seq<char>, (Seq<char>, Seq<char>)>::empty(),
    {
        HashmapTwoFACodeStore::new()
    }
}

impl TwoFACodeStore for HashmapTwoFACodeStore {
    closed spec fn codes(&self) -> Map<Seq<char>, (Seq<char>, Seq<char>)> {
        self.codes@.map_values(|entry: (LoginAttemptId, TwoFACode)| (entry.0@, entry.1@))
    }

    open spec fn infallible() -> bool {
        true
    }

    fn add_code(&mut self, email: Email, login_attempt_id: LoginAttemptId, code: TwoFACode) -> (r:
        Result<(), TwoFACodeStoreError>) {
        self.codes.insert(email.as_ref().to_owned(), (login_attempt_id, code));
        assert(self.codes() =~= old(self).codes().insert(email@, (login_attempt_id@, code@)));
        Ok(())
    }

    fn remove_code(&mut self, email: &Email) -> (r: Result<(), TwoFACodeStoreError>) {
        self.codes.remove(email.as_ref());
        assert(self.codes() =~= old(self).codes().remove(email@));
        Ok(())
    }

    fn get_code(&self, email: &Email) -> (r: Result<
        (LoginAttemptId, TwoFACode),
        TwoFACodeStoreError,
    >) {
        match self.codes.get(email.as_ref()) {
            Some(entry) => Ok((entry.0.clone(), entry.1.clone())),
            None => Err(TwoFACodeStoreError::LoginAttemptIdNotFound),
        }
    }
}

} // verus!
