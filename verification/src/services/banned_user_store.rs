//! The revoked tokens, in a hash set.
use crate::domain::ports::{BannedStore, BannedStoreError};
use vstd::hash_set::StringHashSet;
use vstd::prelude::*;

verus! {

/// A banned-token store that keeps the revoked tokens in memory.
pub struct HashSetBannedStore {
    banned_tokens: StringHashSet,
}

impl HashSetBannedStore {
    /// An empty store.
    pub fn new() -> (store: Self)
        ensures
            store.tokens() == Set::<Seq<char>>::empty(),
    {
        HashSetBannedStore { banned_tokens: StringHashSet::new() }
    }
}

impl Default for HashSetBannedStore {
    fn default() -> (store: Self)
        ensures
            store.tokens() == Set::<Seq<char>>::empty(),
    {
        HashSetBannedStore::new()
    }
}

impl BannedStore for HashSetBannedStore {
    closed spec fn tokens(&self) -> Set<Seq<char>> {
        self.banned_tokens@
    }

    open spec fn infallible() -> bool {
        true
    }

    fn is_banned(&self, token: &str) -> (r: Result<bool, BannedStoreError>) {
        Ok(self.banned_tokens.contains(token))
    }

    fn add_token(&mut self, token: &str) -> (r: Result<(), BannedStoreError>) {
        self.banned_tokens.insert(token.to_owned());
        Ok(())
    }
}

} // verus!
