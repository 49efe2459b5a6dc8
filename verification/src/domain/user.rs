//! An account record.

use vstd::prelude::*;

use crate::domain::email::Email;
use crate::domain::user_id::UserId;
use crate::domain::user_password_hash::UserPasswordHash;
use crate::domain::uuid_string::is_canonical_uuid;

verus! {

/// The mathematical model of an account record.
pub ghost struct UserV {
    pub email: Seq<char>,
    pub hash: Seq<char>,
    pub requires_2fa: bool,
    pub id: Seq<char>,
}

/// An account record: created on signup, read on every login and
/// session validation, deleted on account deletion.
#[derive(PartialEq)]
pub struct User {
    pub email: Email,
    pub hash: UserPasswordHash,
    pub requires_2fa: bool,
    pub id: UserId,
}

impl View for User {
    type V = UserV;

    open spec fn view(&self) -> UserV {
        UserV {
            email: self.email@,
            hash: self.hash@,
            requires_2fa: self.requires_2fa,
            id: self.id@,
        }
    }
}

impl User {
    /// Builds a record with a freshly generated identifier.
    pub fn new(email: Email, hash: UserPasswordHash, requires_2fa: bool) -> (r: User)
        ensures
            r@.email == email@,
            r@.hash == hash@,
            r@.requires_2fa == requires_2fa,
            is_canonical_uuid(r@.id),
    {
        User { email, hash, requires_2fa, id: UserId::default() }
    }
}

impl Clone for User {
    fn clone(&self) -> (r: Self)
        ensures
            r@ == self@,
    {
        User {
            email: self.email.clone(),
            hash: self.hash.clone(),
            requires_2fa: self.requires_2fa,
            id: self.id.clone(),
        }
    }
}

} // verus!
