//! The in-memory challenge store.

use vstd::prelude::*;

use vstd::hash_map::StringHashMap;

use crate::domain::data_stores::TwoFACodeStore;
use crate::domain::data_stores::TwoFACodeStoreError;
use crate::domain::email::Email;
use crate::domain::login_attempt_id::LoginAttemptId;
use crate::domain::two_fa_code::TwoFACode;

verus! {

/// A challenge store backed by a map in process memory. It keeps at
/// most one pending challenge per address; entries do not expire here,
/// which is accepted for a store that lives as long as a test run.
pub struct HashmapTwoFACodeStore {
    codes: StringHashMap<(LoginAttemptId, TwoFACode)>,
}

impl Default for HashmapTwoFACodeStore {
    /// An empty store.
    fn default() -> (r: Self)
        ensures
            r.inv(),
            r.codes() == Map::<Seq<char>, (Seq<char>, Seq<char>)>::empty(),
    {
        HashmapTwoFACodeStore { codes: StringHashMap::new() }
    }
}

impl TwoFACodeStore for HashmapTwoFACodeStore {
    closed spec fn codes(&self) -> Map<Seq<char>, (Seq<char>, Seq<char>)> {
        Map::new(
            |k: Seq<char>| self.codes@.contains_key(k),
            |k: Seq<char>| (self.codes@[k].0@, self.codes@[k].1@),
        )
    }

    closed spec fn inv(&self) -> bool {
        true
    }

    fn add_code(&mut self, email: Email, login_attempt_id: LoginAttemptId, code: TwoFACode) -> (r:
        Result<(), TwoFACodeStoreError>)
        // In process memory storing a challenge cannot fail.
        ensures
            r is Ok,
    {
        let ghost id_v = login_attempt_id@;
        let ghost code_v = code@;
        let key = email.as_ref().expose_secret().clone();
        self.codes.insert(key, (login_attempt_id, code));
        proof {
            assert(self.codes() =~= old(self).codes().insert(email@, (id_v, code_v)));
        }
        Ok(())
    }

    fn remove_code(&mut self, email: &Email) -> (r: Result<(), TwoFACodeStoreError>)
        ensures
            r is Ok,
    {
        self.codes.remove(email.as_ref().expose_secret().as_str());
        proof {
            assert(self.codes() =~= old(self).codes().remove(email@));
        }
        Ok(())
    }

    fn get_code(&self, email: &Email) -> (r: Result<
        (LoginAttemptId, TwoFACode),
        TwoFACodeStoreError,
    >)
        ensures
            r matches Err(e) ==> e is LoginAttemptIdNotFound,
    {
        match self.codes.get(email.as_ref().expose_secret().as_str()) {
            Some(pair) => Ok((pair.0.clone(), pair.1.clone())),
            None => Err(TwoFACodeStoreError::LoginAttemptIdNotFound),
        }
    }
}

} // verus!
