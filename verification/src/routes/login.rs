//! Login: primary credential check, then either a session or a
//! two-factor challenge.

use vstd::prelude::*;

use crate::domain::data_stores::TwoFACodeStore;
use crate::domain::data_stores::UserStore;
use crate::domain::data_stores::UserStoreError;
use crate::domain::email::is_email;
use crate::domain::email::Email;
use crate::domain::email_client::EmailClient;
use crate::domain::error::AuthAPIError;
use crate::domain::login_attempt_id::LoginAttemptId;
use crate::domain::password::valid_password;
use crate::domain::password::Password;
use crate::domain::secret::SecretString;
use crate::domain::two_fa_code::is_six_digits;
use crate::domain::two_fa_code::TwoFACode;
use crate::domain::user_password_hash::password_matches;
use crate::domain::uuid_string::is_canonical_uuid;
use crate::utils::auth::generate_auth_token_at;
use crate::utils::auth::jwt_payload;
use crate::utils::auth::jwt_token_of;
use crate::utils::auth::TOKEN_TTL_SECONDS;

verus! {

/// The body of a successful login response.
#[derive(Debug)]
pub enum LoginResponse {
    RegularAuth,
    TwoFactorAuth(TwoFactorAuthResponse),
}

/// The body returned when a second factor is still owed: it carries the
/// attempt id and never the code.
#[derive(Debug)]
pub struct TwoFactorAuthResponse {
    pub message: String,
    pub login_attempt_id: String,
}

/// What a completed login call hands the transport: the status, the
/// session token to set as a cookie (for a full authentication), and
/// the response body.
pub struct LoginSuccess {
    pub status: u16,
    pub auth_token: Option<SecretString>,
    pub body: LoginResponse,
}

/// Logs a caller in. With correct credentials and no second factor
/// required, mints a session token; with a second factor required,
/// stores a fresh challenge, dispatches the code, and returns only the
/// attempt id.
///
/// An unknown address and a wrong password are deliberately collapsed
/// into one error, so a caller cannot tell which was wrong.
pub fn login<U: UserStore, T: TwoFACodeStore, E: EmailClient>(
    user_store: &U,
    two_fa_code_store: &mut T,
    email_client: &E,
    email: String,
    password: SecretString,
    jwt_secret: &SecretString,
    now: i64,
) -> (r: Result<LoginSuccess, AuthAPIError>)
    requires
        user_store.inv(),
        old(two_fa_code_store).inv(),
    ensures
        final(two_fa_code_store).inv(),
        match r {
            Ok(s) => user_store.users().contains_key(email@) && password_matches(
                user_store.users()[email@].hash,
                password@,
            ) && (if user_store.users()[email@].requires_2fa {
                &&& s.status == 206
                &&& s.auth_token is None
                &&& s.body matches LoginResponse::TwoFactorAuth(t) && t.message@
                    == "2FA required"@ && is_canonical_uuid(t.login_attempt_id@) && final(two_fa_code_store).codes().contains_key(email@) && final(two_fa_code_store).codes()[email@].0
                    == t.login_attempt_id@ && is_six_digits(
                    final(two_fa_code_store).codes()[email@].1,
                ) && final(two_fa_code_store).codes() == old(two_fa_code_store).codes().insert(
                    email@,
                    final(two_fa_code_store).codes()[email@],
                )
            } else {
                &&& s.status == 200
                &&& s.body is RegularAuth
                &&& s.auth_token matches Some(tok) && now + TOKEN_TTL_SECONDS >= 0 && now
                    + TOKEN_TTL_SECONDS <= u64::MAX && tok@ == jwt_token_of(
                    email@,
                    (now + TOKEN_TTL_SECONDS) as u64,
                    jwt_secret@,
                ) && jwt_payload(tok@, jwt_secret@) == Some(
                    (email@, (now + TOKEN_TTL_SECONDS) as u64),
                )
                &&& final(two_fa_code_store).codes() == old(two_fa_code_store).codes()
            }),
            Err(AuthAPIError::ValidationError(e)) => (!is_email(email@) || !valid_password(
                password@,
            )) && final(two_fa_code_store).codes() == old(two_fa_code_store).codes() && e@
                == if !is_email(email@) {
                "Invalid email address"@
            } else if password@.len() < 8 {
                "Password too short. Should be 8 to 128 characters."@
            } else {
                "Password too long. Should be 8 to 128 characters."@
            },
            Err(AuthAPIError::IncorrectCredentials) => (!user_store.users().contains_key(email@)
                || !password_matches(user_store.users()[email@].hash, password@)) && final(two_fa_code_store).codes() == old(two_fa_code_store).codes(),
            Err(AuthAPIError::UnexpectedError(_)) => is_email(email@) && valid_password(
                password@,
            ),
            _ => false,
        },
{
    let email = match Email::parse(SecretString::new(email)) {
        Ok(e) => e,
        Err(err) => {
            return Err(AuthAPIError::ValidationError(err));
        },
    };
    let password = match Password::parse(password) {
        Ok(p) => p,
        Err(err) => {
            return Err(AuthAPIError::ValidationError(err));
        },
    };

    match user_store.validate_user(&email, &password) {
        Ok(()) => (),
        Err(UserStoreError::InvalidCredentials) | Err(UserStoreError::UserNotFound) => {
            return Err(AuthAPIError::IncorrectCredentials);
        },
        Err(_) => {
            return Err(AuthAPIError::UnexpectedError("user store failure".to_owned()));
        },
    }

    let user = match user_store.get_user(&email) {
        Ok(u) => u,
        Err(_) => {
            return Err(AuthAPIError::UnexpectedError("user store failure".to_owned()));
        },
    };

    if user.requires_2fa {
        handle_2fa(&user.email, two_fa_code_store, email_client)
    } else {
        handle_no_2fa(&user.email, jwt_secret, now)
    }
}

/// Stores a fresh challenge for the address, dispatches the code, and
/// answers with the attempt id alone. A delivery failure aborts the
/// login attempt; the challenge is already stored then, but the caller
/// never learns the attempt id, so it stays unreachable until it
/// expires.
fn handle_2fa<T: TwoFACodeStore, E: EmailClient>(
    email: &Email,
    two_fa_code_store: &mut T,
    email_client: &E,
) -> (r: Result<LoginSuccess, AuthAPIError>)
    requires
        old(two_fa_code_store).inv(),
    ensures
        final(two_fa_code_store).inv(),
        match r {
            Ok(s) => {
                &&& s.status == 206
                &&& s.auth_token is None
                &&& s.body matches LoginResponse::TwoFactorAuth(t) && t.message@
                    == "2FA required"@ && is_canonical_uuid(t.login_attempt_id@) && final(two_fa_code_store).codes().contains_key(email@) && final(two_fa_code_store).codes()[email@].0
                    == t.login_attempt_id@ && is_six_digits(
                    final(two_fa_code_store).codes()[email@].1,
                ) && final(two_fa_code_store).codes() == old(two_fa_code_store).codes().insert(
                    email@,
                    final(two_fa_code_store).codes()[email@],
                )
            },
            Err(AuthAPIError::UnexpectedError(_)) => true,
            _ => false,
        },
{
    let login_attempt_id = LoginAttemptId::default();
    let two_fa_code = TwoFACode::default();

    match two_fa_code_store.add_code(
        email.clone(),
        login_attempt_id.clone(),
        two_fa_code.clone(),
    ) {
        Ok(()) => (),
        Err(_) => {
            return Err(AuthAPIError::UnexpectedError("failed to store 2FA challenge".to_owned()));
        },
    }

    match email_client.send_email(
        email,
        "2FA Code",
        two_fa_code.as_ref().expose_secret().as_str(),
    ) {
        Ok(()) => (),
        Err(reason) => {
            return Err(AuthAPIError::UnexpectedError(reason));
        },
    }

    let response = TwoFactorAuthResponse {
        message: "2FA required".to_owned(),
        login_attempt_id: login_attempt_id.as_ref().expose_secret().clone(),
    };
    Ok(
        LoginSuccess {
            status: 206,
            auth_token: None,
            body: LoginResponse::TwoFactorAuth(response),
        },
    )
}

/// Mints the session token that completes a login without a second
/// factor.
fn handle_no_2fa(email: &Email, jwt_secret: &SecretString, now: i64) -> (r: Result<
    LoginSuccess,
    AuthAPIError,
>)
    ensures
        match r {
            Ok(s) => {
                &&& s.status == 200
                &&& s.body is RegularAuth
                &&& s.auth_token matches Some(tok) && now + TOKEN_TTL_SECONDS >= 0 && now
                    + TOKEN_TTL_SECONDS <= u64::MAX && tok@ == jwt_token_of(
                    email@,
                    (now + TOKEN_TTL_SECONDS) as u64,
                    jwt_secret@,
                ) && jwt_payload(tok@, jwt_secret@) == Some(
                    (email@, (now + TOKEN_TTL_SECONDS) as u64),
                )
            },
            Err(AuthAPIError::UnexpectedError(_)) => true,
            _ => false,
        },
{
    let token = match generate_auth_token_at(email, jwt_secret, now) {
        Ok(t) => t,
        Err(err) => {
            return Err(AuthAPIError::UnexpectedError(err.as_ref().clone()));
        },
    };
    Ok(LoginSuccess { status: 200, auth_token: Some(token), body: LoginResponse::RegularAuth })
}

} // verus!
