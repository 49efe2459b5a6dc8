//! The in-memory credential store.

use vstd::prelude::*;

use vstd::hash_map::StringHashMap;

use crate::domain::data_stores::UserStore;
use crate::domain::data_stores::UserStoreError;
use crate::domain::email::Email;
use crate::domain::password::Password;
use crate::domain::user::User;
use crate::domain::user::UserV;
use crate::domain::user_password_hash::verify_password_hash;

verus! {

/// A credential store backed by a map in process memory. Serves tests
/// and development; interchangeable with the durable backend.
pub struct HashmapUserStore {
    users: StringHashMap<User>,
}

impl Default for HashmapUserStore {
    /// An empty store.
    fn default() -> (r: Self)
        ensures
            r.inv(),
            r.users() == Map::<Seq<char>, UserV>::empty(),
    {
        HashmapUserStore { users: StringHashMap::new() }
    }
}

impl UserStore for HashmapUserStore {
    closed spec fn users(&self) -> Map<Seq<char>, UserV> {
        Map::new(|k: Seq<char>| self.users@.contains_key(k), |k: Seq<char>| self.users@[k]@)
    }

    /// Each record sits under its own e-mail address.
    closed spec fn inv(&self) -> bool {
        forall|k: Seq<char>| #[trigger]
            self.users@.contains_key(k) ==> self.users@[k]@.email == k
    }

    fn add_user(&mut self, user: User) -> (r: Result<(), UserStoreError>)
        // In process memory nothing can fail: the one error is the conflict.
        ensures
            r matches Err(e) ==> e is UserAlreadyExists,
    {
        let ghost user_v = user@;
        let key = user.email.as_ref().expose_secret().clone();
        if self.users.contains_key(key.as_str()) {
            return Err(UserStoreError::UserAlreadyExists);
        }
        self.users.insert(key, user);
        proof {
            assert(self.users() =~= old(self).users().insert(user_v.email, user_v));
        }
        Ok(())
    }

    fn get_user(&self, email: &Email) -> (r: Result<User, UserStoreError>)
        ensures
            r matches Err(e) ==> e is UserNotFound,
    {
        match self.users.get(email.as_ref().expose_secret().as_str()) {
            Some(user) => Ok(user.clone()),
            None => Err(UserStoreError::UserNotFound),
        }
    }

    fn validate_user(&self, email: &Email, password: &Password) -> (r: Result<
        (),
        UserStoreError,
    >)
        ensures
            r matches Err(e) ==> e is UserNotFound || e is InvalidCredentials,
    {
        let user = self.get_user(email)?;
        match verify_password_hash(user.hash.as_ref(), password.as_ref()) {
            Ok(()) => Ok(()),
            Err(_) => Err(UserStoreError::InvalidCredentials),
        }
    }

    fn delete_user(&mut self, email: &Email) -> (r: Result<(), UserStoreError>)
        ensures
            r matches Err(e) ==> e is UserNotFound,
    {
        let key = email.as_ref().expose_secret();
        if !self.users.contains_key(key.as_str()) {
            return Err(UserStoreError::UserNotFound);
        }
        self.users.remove(key.as_str());
        proof {
            assert(self.users() =~= old(self).users().remove(email@));
        }
        Ok(())
    }
}

} // verus!
