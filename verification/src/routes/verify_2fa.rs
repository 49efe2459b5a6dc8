//! Redeeming a two-factor challenge.

use vstd::prelude::*;

use crate::domain::data_stores::TwoFACodeStore;
use crate::domain::data_stores::TwoFACodeStoreError;
use crate::domain::email::is_email;
use crate::domain::email::Email;
use crate::domain::error::AuthAPIError;
use crate::domain::login_attempt_id::LoginAttemptId;
use crate::domain::secret::SecretString;
use crate::domain::two_fa_code::is_six_digits;
use crate::domain::two_fa_code::TwoFACode;
use crate::domain::uuid_string::uuid_canon;
use crate::utils::auth::generate_auth_token_at;
use crate::utils::auth::jwt_payload;
use crate::utils::auth::jwt_token_of;
use crate::utils::auth::TOKEN_TTL_SECONDS;

verus! {

/// The caller's attempt to redeem a challenge.
#[derive(Debug)]
pub struct Verify2FARequest {
    pub email: String,
    pub login_attempt_id: String,
    pub two_fa_code: String,
}

/// Whether the pending challenges hold exactly this (attempt id, code)
/// pair for the address.
pub open spec fn challenge_matches(
    codes: Map<Seq<char>, (Seq<char>, Seq<char>)>,
    email: Seq<char>,
    attempt_id: Seq<char>,
    code: Seq<char>,
) -> bool {
    codes.contains_key(email) && codes[email].0 == attempt_id && codes[email].1 == code
}

/// A challenge is redeemable at most once: after the pending entry of
/// the address is removed, no pair matches for that address any more.
pub proof fn lemma_challenge_single_use(
    codes: Map<Seq<char>, (Seq<char>, Seq<char>)>,
    email: Seq<char>,
    attempt_id: Seq<char>,
    code: Seq<char>,
)
    ensures
        !challenge_matches(codes.remove(email), email, attempt_id, code),
{
    assert(!codes.remove(email).contains_key(email));
}

/// A later challenge strictly supersedes an earlier one: once a new
/// pair is stored for the address, a presentation holding the earlier
/// attempt id no longer matches.
pub proof fn lemma_challenge_superseded(
    codes: Map<Seq<char>, (Seq<char>, Seq<char>)>,
    email: Seq<char>,
    old_attempt_id: Seq<char>,
    old_code: Seq<char>,
    new_attempt_id: Seq<char>,
    new_code: Seq<char>,
)
    requires
        old_attempt_id != new_attempt_id,
    ensures
        !challenge_matches(
            codes.insert(email, (new_attempt_id, new_code)),
            email,
            old_attempt_id,
            old_code,
        ),
{
}

/// Redeems a pending challenge: on an exact match of address, attempt
/// id and code, mints a session token and then removes the challenge.
///
/// A missing challenge and a mismatch on either value are deliberately
/// not distinguished, so a caller cannot learn which field was wrong.
/// Removal happens after issuance: a crash between the two leaves the
/// code briefly redeemable again until it expires, an accepted bounded
/// risk.
pub fn verify_2fa<T: TwoFACodeStore>(
    two_fa_code_store: &mut T,
    request: Verify2FARequest,
    jwt_secret: &SecretString,
    now: i64,
) -> (r: Result<SecretString, AuthAPIError>)
    requires
        old(two_fa_code_store).inv(),
    ensures
        final(two_fa_code_store).inv(),
        match r {
            Ok(tok) => {
                &&& is_email(request.email@)
                &&& is_six_digits(request.two_fa_code@)
                &&& uuid_canon(request.login_attempt_id@) matches Some(id) && challenge_matches(
                    old(two_fa_code_store).codes(),
                    request.email@,
                    id,
                    request.two_fa_code@,
                )
                &&& final(two_fa_code_store).codes() == old(two_fa_code_store).codes().remove(
                    request.email@,
                )
                &&& now + TOKEN_TTL_SECONDS >= 0 && now + TOKEN_TTL_SECONDS <= u64::MAX
                &&& tok@ == jwt_token_of(
                    request.email@,
                    (now + TOKEN_TTL_SECONDS) as u64,
                    jwt_secret@,
                )
                &&& jwt_payload(tok@, jwt_secret@) == Some(
                    (request.email@, (now + TOKEN_TTL_SECONDS) as u64),
                )
            },
            Err(AuthAPIError::ValidationError(e)) => (!is_email(request.email@) || uuid_canon(
                request.login_attempt_id@,
            ) is None || !is_six_digits(request.two_fa_code@)) && final(two_fa_code_store).codes()
                == old(two_fa_code_store).codes() && e@ == if !is_email(request.email@) {
                "Invalid email address"@
            } else if uuid_canon(request.login_attempt_id@) is None {
                "Invalid login attempt ID"@
            } else {
                "2FA code is not valid"@
            },
            Err(AuthAPIError::IncorrectCredentials) => is_email(request.email@) && is_six_digits(
                request.two_fa_code@,
            ) && (uuid_canon(request.login_attempt_id@) matches Some(id) && !challenge_matches(
                old(two_fa_code_store).codes(),
                request.email@,
                id,
                request.two_fa_code@,
            )) && final(two_fa_code_store).codes() == old(two_fa_code_store).codes(),
            Err(AuthAPIError::UnexpectedError(_)) => is_email(request.email@) && uuid_canon(
                request.login_attempt_id@,
            ) is Some && is_six_digits(request.two_fa_code@),
            _ => false,
        },
{
    let email = match Email::parse(SecretString::new(request.email)) {
        Ok(e) => e,
        Err(err) => {
            return Err(AuthAPIError::ValidationError(err));
        },
    };
    let login_attempt_id = match LoginAttemptId::parse(
        SecretString::new(request.login_attempt_id),
    ) {
        Ok(l) => l,
        Err(err) => {
            return Err(AuthAPIError::ValidationError(err));
        },
    };
    let two_fa_code = match TwoFACode::parse(SecretString::new(request.two_fa_code)) {
        Ok(c) => c,
        Err(err) => {
            return Err(AuthAPIError::ValidationError(err));
        },
    };

    let (expected_login_attempt_id, expected_two_fa_code) = match two_fa_code_store.get_code(
        &email,
    ) {
        Ok(pair) => pair,
        Err(TwoFACodeStoreError::LoginAttemptIdNotFound) => {
            return Err(AuthAPIError::IncorrectCredentials);
        },
        Err(TwoFACodeStoreError::UnexpectedError(_)) => {
            return Err(AuthAPIError::UnexpectedError("2FA code store failure".to_owned()));
        },
    };

    if login_attempt_id != expected_login_attempt_id || two_fa_code != expected_two_fa_code {
        return Err(AuthAPIError::IncorrectCredentials);
    }

    let token = match generate_auth_token_at(&email, jwt_secret, now) {
        Ok(t) => t,
        Err(err) => {
            return Err(AuthAPIError::UnexpectedError(err.as_ref().clone()));
        },
    };

    match two_fa_code_store.remove_code(&email) {
        Ok(()) => (),
        Err(_) => {
            return Err(AuthAPIError::UnexpectedError("2FA code store failure".to_owned()));
        },
    }

    Ok(token)
}

} // verus!
