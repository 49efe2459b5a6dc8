//! Ending a session by revoking its token.

use vstd::prelude::*;

use crate::domain::data_stores::BannedTokenStore;
use crate::domain::error::AuthAPIError;
use crate::domain::secret::SecretString;
use crate::utils::auth::spec_validate_token;
use crate::utils::auth::validate_token_at;
use crate::utils::auth::TokenValidationError;

verus! {

/// Logs the bearer of a token out: the token must still validate, and
/// is then revoked.
///
/// Logging out twice with the same token fails the second time: the
/// token is revoked by then, so validation reports it invalid. This is
/// deliberate; logout is not idempotent.
pub fn logout<B: BannedTokenStore>(
    banned_token_store: &mut B,
    token: Option<SecretString>,
    jwt_secret: &SecretString,
    now: i64,
) -> (r: Result<(), AuthAPIError>)
    requires
        old(banned_token_store).inv(),
    ensures
        final(banned_token_store).inv(),
        match r {
            Ok(()) => token matches Some(t) && spec_validate_token(
                t@,
                old(banned_token_store).tokens(),
                jwt_secret@,
                now,
            ) is Ok && final(banned_token_store).tokens() == old(banned_token_store).tokens().insert(t@),
            Err(AuthAPIError::MissingToken) => token is None && final(banned_token_store).tokens() == old(banned_token_store).tokens(),
            Err(AuthAPIError::InvalidToken) => (token matches Some(t) && spec_validate_token(
                t@,
                old(banned_token_store).tokens(),
                jwt_secret@,
                now,
            ) is Err) && final(banned_token_store).tokens() == old(banned_token_store).tokens(),
            Err(AuthAPIError::UnexpectedError(_)) => token is Some,
            _ => false,
        },
        token is None ==> r matches Err(AuthAPIError::MissingToken),
        token matches Some(t) && spec_validate_token(
            t@,
            old(banned_token_store).tokens(),
            jwt_secret@,
            now,
        ) is Ok ==> (r is Ok || r matches Err(AuthAPIError::UnexpectedError(_))),
        token matches Some(t) && spec_validate_token(
            t@,
            old(banned_token_store).tokens(),
            jwt_secret@,
            now,
        ) is Err ==> (r matches Err(AuthAPIError::InvalidToken) || r matches Err(
            AuthAPIError::UnexpectedError(_),
        )),
{
    let token = match token {
        Some(t) => t,
        None => {
            return Err(AuthAPIError::MissingToken);
        },
    };

    match validate_token_at(&token, banned_token_store, jwt_secret, now) {
        Ok(_) => (),
        Err(TokenValidationError::UnexpectedError(reason)) => {
            return Err(AuthAPIError::UnexpectedError(reason));
        },
        Err(_) => {
            return Err(AuthAPIError::InvalidToken);
        },
    }

    match banned_token_store.add_token(&token) {
        Ok(()) => Ok(()),
        Err(_) => Err(AuthAPIError::UnexpectedError("banned token store failure".to_owned())),
    }
}

} // verus!
