//! The in-memory revocation store.

use vstd::prelude::*;

use vstd::hash_set::StringHashSet;

use crate::domain::data_stores::BannedTokenStore;
use crate::domain::data_stores::BannedTokenStoreError;
use crate::domain::secret::SecretString;

verus! {

/// A revocation store backed by a set in process memory. It never
/// expires entries, which is accepted for a store that lives as long as
/// a test run; the durable backend expires them with the session TTL.
pub struct HashsetBannedTokenStore {
    banned_tokens: StringHashSet,
}

impl Default for HashsetBannedTokenStore {
    /// An empty store.
    fn default() -> (r: Self)
        ensures
            r.inv(),
            r.tokens() == Set::<Seq<char>>::empty(),
    {
        HashsetBannedTokenStore { banned_tokens: StringHashSet::new() }
    }
}

impl BannedTokenStore for HashsetBannedTokenStore {
    closed spec fn tokens(&self) -> Set<Seq<char>> {
        self.banned_tokens@
    }

    closed spec fn inv(&self) -> bool {
        true
    }

    fn add_token(&mut self, token: &SecretString) -> (r: Result<(), BannedTokenStoreError>)
        // In process memory revocation cannot fail.
        ensures
            r is Ok,
    {
        self.banned_tokens.insert(token.expose_secret().clone());
        Ok(())
    }

    fn check_token(&self, token: &SecretString) -> (r: Result<(), BannedTokenStoreError>)
        ensures
            r matches Err(e) ==> e is BannedToken,
    {
        if self.banned_tokens.contains(token.expose_secret().as_str()) {
            Err(BannedTokenStoreError::BannedToken)
        } else {
            Ok(())
        }
    }
}

} // verus!
