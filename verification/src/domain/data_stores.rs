//! The capability interfaces of the three stores.
//!
//! Each store is an abstract contract that several backends satisfy
//! interchangeably: an in-memory implementation for tests and
//! development, and durable backends wired up outside the verified
//! core. The orchestrator depends only on these interfaces.

use vstd::prelude::*;

use crate::domain::email::Email;
use crate::domain::login_attempt_id::LoginAttemptId;
use crate::domain::password::Password;
use crate::domain::secret::SecretString;
use crate::domain::two_fa_code::TwoFACode;
use crate::domain::user::User;
use crate::domain::user::UserV;
use crate::domain::user_password_hash::password_matches;

verus! {

/// Failures of a credential store. `UnexpectedError` carries a
/// server-side reason (store I/O failure, corrupt stored data).
#[derive(Debug, PartialEq)]
pub enum UserStoreError {
    UserAlreadyExists,
    UserNotFound,
    InvalidCredentials,
    UnexpectedError(String),
}

/// Durable identity records keyed by e-mail address.
///
/// The model is a map from the address to the stored record. Every
/// operation may also fail with `UnexpectedError` when the backend
/// itself fails; in that case nothing is promised of the stored state.
pub trait UserStore: Sized {
    /// The records, keyed by e-mail address. A backend outside the
    /// verified core may leave the default model; nothing is proved
    /// about such a backend.
    open spec fn users(&self) -> Map<Seq<char>, UserV> {
        Map::empty()
    }

    /// The internal well-formedness of the store.
    open spec fn inv(&self) -> bool {
        true
    }

    /// Adds a record; refuses an address that already has one,
    /// whatever password it comes with.
    fn add_user(&mut self, user: User) -> (r: Result<(), UserStoreError>)
        requires
            old(self).inv(),
        ensures
            final(self).inv(),
            match r {
                Ok(()) => !old(self).users().contains_key(user@.email) && final(self).users()
                    == old(self).users().insert(user@.email, user@),
                Err(UserStoreError::UserAlreadyExists) => old(self).users().contains_key(
                    user@.email,
                ) && final(self).users() == old(self).users(),
                Err(UserStoreError::UnexpectedError(_)) => true,
                _ => false,
            },
    ;

    /// Looks a record up by address.
    fn get_user(&self, email: &Email) -> (r: Result<User, UserStoreError>)
        requires
            self.inv(),
        ensures
            match r {
                Ok(u) => self.users().contains_key(email@) && u@ == self.users()[email@]
                    && u@.email == email@,
                Err(UserStoreError::UserNotFound) => !self.users().contains_key(email@),
                Err(UserStoreError::UnexpectedError(_)) => true,
                _ => false,
            },
    ;

    /// Checks a password against the stored record. An unknown address
    /// and a wrong password are reported apart here; the orchestrator
    /// collapses them before they reach a caller.
    fn validate_user(&self, email: &Email, password: &Password) -> (r: Result<
        (),
        UserStoreError,
    >)
        requires
            self.inv(),
        ensures
            match r {
                Ok(()) => self.users().contains_key(email@) && password_matches(
                    self.users()[email@].hash,
                    password@,
                ),
                Err(UserStoreError::InvalidCredentials) => self.users().contains_key(email@)
                    && !password_matches(self.users()[email@].hash, password@),
                Err(UserStoreError::UserNotFound) => !self.users().contains_key(email@),
                Err(UserStoreError::UnexpectedError(_)) => true,
                _ => false,
            },
    ;

    /// Deletes the record of an address.
    fn delete_user(&mut self, email: &Email) -> (r: Result<(), UserStoreError>)
        requires
            old(self).inv(),
        ensures
            final(self).inv(),
            match r {
                Ok(()) => old(self).users().contains_key(email@) && final(self).users() == old(self).users().remove(email@),
                Err(UserStoreError::UserNotFound) => !old(self).users().contains_key(email@)
                    && final(self).users() == old(self).users(),
                Err(UserStoreError::UnexpectedError(_)) => true,
                _ => false,
            },
    ;
}

/// Failures of the revocation store.
#[derive(Debug, PartialEq)]
pub enum BannedTokenStoreError {
    BannedToken,
    UnexpectedError(String),
}

/// The set of revoked session tokens.
///
/// Entries self-expire in a TTL-capable backend once the token itself
/// could no longer be valid; expiry only shrinks the set of tokens a
/// validator must refuse, so the model is the plain set.
pub trait BannedTokenStore: Sized {
    /// The revoked tokens. A backend outside the verified core may
    /// leave the default model; nothing is proved about such a backend.
    open spec fn tokens(&self) -> Set<Seq<char>> {
        Set::empty()
    }

    /// The internal well-formedness of the store.
    open spec fn inv(&self) -> bool {
        true
    }

    /// Revokes a token. Idempotent: revoking an already-revoked token
    /// succeeds silently.
    fn add_token(&mut self, token: &SecretString) -> (r: Result<(), BannedTokenStoreError>)
        requires
            old(self).inv(),
        ensures
            final(self).inv(),
            match r {
                Ok(()) => final(self).tokens() == old(self).tokens().insert(token@),
                Err(BannedTokenStoreError::BannedToken) => false,
                Err(BannedTokenStoreError::UnexpectedError(_)) => true,
            },
    ;

    /// Reports whether a token is revoked: `BannedToken` exactly when
    /// it is, distinguished from a store failure.
    fn check_token(&self, token: &SecretString) -> (r: Result<(), BannedTokenStoreError>)
        requires
            self.inv(),
        ensures
            match r {
                Ok(()) => !self.tokens().contains(token@),
                Err(BannedTokenStoreError::BannedToken) => self.tokens().contains(token@),
                Err(BannedTokenStoreError::UnexpectedError(_)) => true,
            },
    ;
}

/// Failures of the challenge store.
#[derive(Debug, PartialEq)]
pub enum TwoFACodeStoreError {
    LoginAttemptIdNotFound,
    UnexpectedError(String),
}

/// The pending two-factor challenge of each address: at most one per
/// address, the value being the attempt id and the code.
pub trait TwoFACodeStore: Sized {
    /// The pending challenges: address to (attempt id, code). A
    /// backend outside the verified core may leave the default model;
    /// nothing is proved about such a backend.
    open spec fn codes(&self) -> Map<Seq<char>, (Seq<char>, Seq<char>)> {
        Map::empty()
    }

    /// The internal well-formedness of the store.
    open spec fn inv(&self) -> bool {
        true
    }

    /// Stores a challenge, overwriting any pending one for the same
    /// address: a later attempt strictly supersedes an earlier one.
    fn add_code(&mut self, email: Email, login_attempt_id: LoginAttemptId, code: TwoFACode) -> (r:
        Result<(), TwoFACodeStoreError>)
        requires
            old(self).inv(),
        ensures
            final(self).inv(),
            match r {
                Ok(()) => final(self).codes() == old(self).codes().insert(
                    email@,
                    (login_attempt_id@, code@),
                ),
                Err(TwoFACodeStoreError::LoginAttemptIdNotFound) => false,
                Err(TwoFACodeStoreError::UnexpectedError(_)) => true,
            },
    ;

    /// Drops the pending challenge of an address, if any. Idempotent.
    fn remove_code(&mut self, email: &Email) -> (r: Result<(), TwoFACodeStoreError>)
        requires
            old(self).inv(),
        ensures
            final(self).inv(),
            match r {
                Ok(()) => final(self).codes() == old(self).codes().remove(email@),
                Err(TwoFACodeStoreError::LoginAttemptIdNotFound) => false,
                Err(TwoFACodeStoreError::UnexpectedError(_)) => true,
            },
    ;

    /// Reads the pending challenge of an address.
    fn get_code(&self, email: &Email) -> (r: Result<
        (LoginAttemptId, TwoFACode),
        TwoFACodeStoreError,
    >)
        requires
            self.inv(),
        ensures
            match r {
                Ok(p) => self.codes().contains_key(email@) && p.0@ == self.codes()[email@].0
                    && p.1@ == self.codes()[email@].1,
                Err(TwoFACodeStoreError::LoginAttemptIdNotFound) => !self.codes().contains_key(
                    email@,
                ),
                Err(TwoFACodeStoreError::UnexpectedError(_)) => true,
            },
    ;
}

} // verus!
