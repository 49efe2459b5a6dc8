//! Account creation.

use vstd::prelude::*;

use crate::domain::data_stores::UserStore;
use crate::domain::data_stores::UserStoreError;
use crate::domain::email::is_email;
use crate::domain::email::Email;
use crate::domain::error::AuthAPIError;
use crate::domain::password::valid_password;
use crate::domain::password::Password;
use crate::domain::secret::SecretString;
use crate::domain::user::User;
use crate::domain::user_password_hash::password_matches;
use crate::domain::user_password_hash::UserPasswordHash;

verus! {

/// The body returned on a successful signup.
#[derive(Debug, PartialEq)]
pub struct SignupResponse {
    pub message: String,
}

/// Creates an account: parses the address and the password, hashes the
/// password, and stores the record under the address.
///
/// A malformed input is rejected as a validation error; an address that
/// already has an account is a conflict, whatever password it comes
/// with; only a backend failure is an unexpected error.
pub fn signup<U: UserStore>(
    user_store: &mut U,
    email: String,
    password: SecretString,
    requires_2fa: bool,
) -> (r: Result<SignupResponse, AuthAPIError>)
    requires
        old(user_store).inv(),
    ensures
        final(user_store).inv(),
        match r {
            Ok(resp) => is_email(email@) && valid_password(password@) && !old(user_store).users().contains_key(email@) && final(user_store).users().contains_key(email@)
                && final(user_store).users() == old(user_store).users().insert(
                email@,
                final(user_store).users()[email@],
            ) && final(user_store).users()[email@].email == email@ && final(user_store).users()[email@].requires_2fa == requires_2fa && password_matches(
                final(user_store).users()[email@].hash,
                password@,
            ) && resp.message@ == "User created successfully"@,
            Err(AuthAPIError::ValidationError(e)) => (!is_email(email@) || !valid_password(
                password@,
            )) && final(user_store).users() == old(user_store).users() && e@ == if !is_email(
                email@,
            ) {
                "Invalid email address"@
            } else if password@.len() < 8 {
                "Password too short. Should be 8 to 128 characters."@
            } else {
                "Password too long. Should be 8 to 128 characters."@
            },
            Err(AuthAPIError::UserAlreadyExists) => is_email(email@) && valid_password(password@)
                && old(user_store).users().contains_key(email@) && final(user_store).users()
                == old(user_store).users(),
            Err(AuthAPIError::UnexpectedError(_)) => is_email(email@) && valid_password(
                password@,
            ),
            _ => false,
        },
{
    let email = match Email::parse(SecretString::new(email)) {
        Ok(e) => e,
        Err(err) => {
            return Err(AuthAPIError::ValidationError(err));
        },
    };
    let password = match Password::parse(password) {
        Ok(p) => p,
        Err(err) => {
            return Err(AuthAPIError::ValidationError(err));
        },
    };
    let hash = match UserPasswordHash::from_password(&password) {
        Ok(h) => h,
        Err(err) => {
            return Err(AuthAPIError::UnexpectedError(err.as_ref().clone()));
        },
    };
    let user = User::new(email, hash, requires_2fa);
    match user_store.add_user(user) {
        Ok(()) => Ok(SignupResponse { message: "User created successfully".to_owned() }),
        Err(UserStoreError::UserAlreadyExists) => Err(AuthAPIError::UserAlreadyExists),
        Err(_) => Err(AuthAPIError::UnexpectedError("user store failure".to_owned())),
    }
}

} // verus!
