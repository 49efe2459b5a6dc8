//! Deleting the account of the session's bearer.

use vstd::prelude::*;

use crate::domain::data_stores::BannedTokenStore;
use crate::domain::data_stores::UserStore;
use crate::domain::data_stores::UserStoreError;
use crate::domain::email::is_email;
use crate::domain::email::Email;
use crate::domain::error::AuthAPIError;
use crate::domain::secret::SecretString;
use crate::utils::auth::spec_validate_token;
use crate::utils::auth::validate_token_at;
use crate::utils::auth::TokenValidationError;

verus! {

/// The body returned on a successful account deletion.
#[derive(Debug, PartialEq)]
pub struct DeleteUserResponse {
    pub message: String,
}

/// Deletes the account of the token's bearer: the token must validate,
/// the identity is the token's subject, the credential record is
/// deleted, and the presented token is revoked — an implicit logout.
///
/// Deleting an account that no longer exists (a race with a concurrent
/// deletion) reports that the user was not found.
pub fn delete_user<U: UserStore, B: BannedTokenStore>(
    user_store: &mut U,
    banned_token_store: &mut B,
    token: Option<SecretString>,
    jwt_secret: &SecretString,
    now: i64,
) -> (r: Result<DeleteUserResponse, AuthAPIError>)
    requires
        old(user_store).inv(),
        old(banned_token_store).inv(),
    ensures
        final(user_store).inv(),
        final(banned_token_store).inv(),
        match r {
            Ok(resp) => token matches Some(t) && (spec_validate_token(
                t@,
                old(banned_token_store).tokens(),
                jwt_secret@,
                now,
            ) matches Ok(p) && is_email(p.0) && old(user_store).users().contains_key(p.0)
                && final(user_store).users() == old(user_store).users().remove(p.0) && final(banned_token_store).tokens() == old(banned_token_store).tokens().insert(t@) && resp.message@
                == "User deleted: "@ + p.0),
            Err(AuthAPIError::MissingToken) => token is None && final(user_store).users() == old(user_store).users() && final(banned_token_store).tokens() == old(banned_token_store).tokens(),
            Err(AuthAPIError::InvalidToken) => (token matches Some(t) && spec_validate_token(
                t@,
                old(banned_token_store).tokens(),
                jwt_secret@,
                now,
            ) is Err) && final(user_store).users() == old(user_store).users() && final(banned_token_store).tokens() == old(banned_token_store).tokens(),
            Err(AuthAPIError::UserNotFound) => token matches Some(t) && (spec_validate_token(
                t@,
                old(banned_token_store).tokens(),
                jwt_secret@,
                now,
            ) matches Ok(p) && !old(user_store).users().contains_key(p.0)) && final(user_store).users() == old(user_store).users() && final(banned_token_store).tokens() == old(banned_token_store).tokens(),
            Err(AuthAPIError::UnexpectedError(_)) => token is Some,
            _ => false,
        },
        token is None ==> r matches Err(AuthAPIError::MissingToken),
        token matches Some(t) && spec_validate_token(
            t@,
            old(banned_token_store).tokens(),
            jwt_secret@,
            now,
        ) is Err ==> (r matches Err(AuthAPIError::InvalidToken) || r matches Err(
            AuthAPIError::UnexpectedError(_),
        )),
{
    let token = match token {
        Some(t) => t,
        None => {
            return Err(AuthAPIError::MissingToken);
        },
    };

    let claims = match validate_token_at(&token, banned_token_store, jwt_secret, now) {
        Ok(c) => c,
        Err(TokenValidationError::UnexpectedError(reason)) => {
            return Err(AuthAPIError::UnexpectedError(reason));
        },
        Err(_) => {
            return Err(AuthAPIError::InvalidToken);
        },
    };

    let email = match Email::parse(SecretString::new(claims.sub)) {
        Ok(e) => e,
        Err(err) => {
            return Err(AuthAPIError::UnexpectedError(err.as_ref().clone()));
        },
    };

    match user_store.delete_user(&email) {
        Ok(()) => (),
        Err(UserStoreError::UserNotFound) => {
            return Err(AuthAPIError::UserNotFound);
        },
        Err(_) => {
            return Err(AuthAPIError::UnexpectedError("user store failure".to_owned()));
        },
    }

    match banned_token_store.add_token(&token) {
        Ok(()) => (),
        Err(_) => {
            return Err(AuthAPIError::UnexpectedError("banned token store failure".to_owned()));
        },
    }

    let message = vstd::string::StringExecFns::concat(
        "User deleted: ".to_owned(),
        email.as_ref().expose_secret().as_str(),
    );
    Ok(DeleteUserResponse { message })
}

} // verus!
