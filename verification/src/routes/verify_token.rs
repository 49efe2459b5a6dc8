//! Checking a bearer token without any side effect.

use vstd::prelude::*;

use crate::domain::data_stores::BannedTokenStore;
use crate::domain::error::AuthAPIError;
use crate::domain::secret::SecretString;
use crate::utils::auth::spec_validate_token;
use crate::utils::auth::validate_token_at;
use crate::utils::auth::TokenValidationError;

verus! {

/// The caller's bearer token.
#[derive(Debug)]
pub struct VerifyTokenRequest {
    pub token: String,
}

/// Reports whether a token is currently a valid session: not revoked,
/// correctly signed, not expired. No store is written.
pub fn verify_token<B: BannedTokenStore>(
    banned_token_store: &B,
    request: VerifyTokenRequest,
    jwt_secret: &SecretString,
    now: i64,
) -> (r: Result<(), AuthAPIError>)
    requires
        banned_token_store.inv(),
    ensures
        r matches Ok(()) ==> spec_validate_token(
            request.token@,
            banned_token_store.tokens(),
            jwt_secret@,
            now,
        ) is Ok,
        r matches Err(AuthAPIError::InvalidToken) ==> spec_validate_token(
            request.token@,
            banned_token_store.tokens(),
            jwt_secret@,
            now,
        ) is Err,
        spec_validate_token(request.token@, banned_token_store.tokens(), jwt_secret@, now) is Err
            ==> r is Err,
        spec_validate_token(request.token@, banned_token_store.tokens(), jwt_secret@, now) is Ok
            ==> (r is Ok || r matches Err(AuthAPIError::UnexpectedError(_))),
        r is Err ==> (r matches Err(AuthAPIError::InvalidToken) || r matches Err(
            AuthAPIError::UnexpectedError(_),
        )),
{
    let token = SecretString::new(request.token);
    match validate_token_at(&token, banned_token_store, jwt_secret, now) {
        Ok(_) => Ok(()),
        Err(TokenValidationError::UnexpectedError(reason)) => {
            Err(AuthAPIError::UnexpectedError(reason))
        },
        Err(_) => Err(AuthAPIError::InvalidToken),
    }
}

} // verus!
