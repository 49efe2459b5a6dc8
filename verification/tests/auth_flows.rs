//! End-to-end authentication flows: hashing, tokens, signup, login,
//! the two-factor protocol, logout and account deletion.

use auth_service::domain::data_stores::BannedTokenStore;
use auth_service::domain::data_stores::TwoFACodeStore;
use auth_service::domain::email::Email;
use auth_service::domain::email_client::NoopEmailClient;
use auth_service::domain::error::AuthAPIError;
use auth_service::domain::error::ValidationError;
use auth_service::domain::login_attempt_id::LoginAttemptId;
use auth_service::domain::password::Password;
use auth_service::domain::secret::SecretString;
use auth_service::domain::two_fa_code::TwoFACode;
use auth_service::domain::user_id::UserId;
use auth_service::routes::delete_user::delete_user;
use auth_service::routes::login::login;
use auth_service::routes::login::LoginResponse;
use auth_service::routes::logout::logout;
use auth_service::routes::signup::signup;
use auth_service::routes::verify_2fa::verify_2fa;
use auth_service::routes::verify_2fa::Verify2FARequest;
use auth_service::routes::verify_token::verify_token;
use auth_service::routes::verify_token::VerifyTokenRequest;
use auth_service::services::hashmap_two_fa_code_store::HashmapTwoFACodeStore;
use auth_service::services::hashmap_user_store::HashmapUserStore;
use auth_service::services::hashset_banned_token_store::HashsetBannedTokenStore;
use auth_service::utils::auth::generate_auth_token;
use auth_service::utils::auth::generate_auth_token_at;
use auth_service::utils::auth::validate_token;
use auth_service::utils::auth::validate_token_at;
use auth_service::utils::auth::TokenValidationError;
use auth_service::domain::user_password_hash::compute_password_hash;
use auth_service::domain::user_password_hash::verify_password_hash;
use auth_service::domain::user_password_hash::UserPasswordHash;

const NOW: i64 = 1_700_000_000;

fn valid_passwords() -> Vec<&'static str> {
    vec![
        "passw123",
        r#"Ab1:\n☀😎"#,
        r##"Ab1:\n☀😎`¬!"£$%^&*()_-=+[]{}|\'@#~;:/?<>,.\\\\\\\\\\☀☁☃☄★☆☎☏☐☑☒☕"##,
    ]
}

fn secret(s: &str) -> SecretString {
    SecretString::new(s.to_string())
}

fn email(s: &str) -> Email {
    Email::parse(secret(s)).expect("Failed to parse email")
}

#[test]
fn hash_valid_passwords() {
    for password in valid_passwords().iter() {
        let result = compute_password_hash(&secret(password));
        assert!(result.is_ok(), "Failed to hash valid password: {}", password);
    }
}

#[test]
fn verify_valid_passwords() {
    for password in valid_passwords().iter() {
        let candidate = secret(password);
        let expected = compute_password_hash(&candidate)
            .expect("Failed to hash valid password");
        let result = verify_password_hash(&expected, &candidate);
        assert!(
            result.is_ok(),
            "Failed to verify valid hash for password: {}",
            password
        );
    }
}

#[test]
fn from_valid_passwords() {
    for password in valid_passwords().iter() {
        let candidate = secret(password);
        let parsed_password =
            Password::parse(candidate.clone()).expect("Failed to parse valid password");
        let expected = UserPasswordHash::from_password(&parsed_password)
            .expect("Failed to hash valid password");
        let result = verify_password_hash(expected.as_ref(), &candidate);
        assert!(
            result.is_ok(),
            "Failed to verify valid hash for password: {}",
            password
        );
    }
}

#[test]
fn verify_rejects_modified_candidates() {
    let hash = compute_password_hash(&secret("password")).expect("Failed to hash");
    for candidate in ["passwore", "Password", "passward", "password1", "passwor"] {
        assert!(
            verify_password_hash(&hash, &secret(candidate)).is_err(),
            "Modified candidate should not verify: {}",
            candidate
        );
    }
    // A hash is salted: it is never the password handed back.
    assert_ne!(hash.expose_secret(), "password");
}

#[test]
fn test_generate_auth_token() {
    let email = email("test@example.com");
    let result = generate_auth_token(&email, &secret("secret")).unwrap_or_else(|_| {
        panic!("Failed to generate token")
    });
    assert_eq!(result.expose_secret().split('.').count(), 3);
}

#[test]
fn test_validate_token_with_valid_token() {
    let email = email("test@example.com");
    let jwt_secret = secret("secret");
    let token = generate_auth_token_at(&email, &jwt_secret, NOW)
        .unwrap_or_else(|_| panic!("Failed to generate token"));
    let banned_token_store = HashsetBannedTokenStore::default();
    let result = validate_token_at(&token, &banned_token_store, &jwt_secret, NOW).unwrap();
    assert_eq!(result.sub, "test@example.com");
    assert!(result.exp > (NOW + 540) as u64);
}

#[test]
fn test_validate_token_with_invalid_token() {
    let token = secret("invalid_token");
    let banned_token_store = HashsetBannedTokenStore::default();
    let result = validate_token(&token, &banned_token_store, &secret("secret"));
    assert!(result.is_err());
}

#[test]
fn test_validate_token_with_banned_token() {
    let email = email("test@example.com");
    let jwt_secret = secret("secret");
    let token = generate_auth_token_at(&email, &jwt_secret, NOW)
        .unwrap_or_else(|_| panic!("Failed to generate token"));
    let mut banned_token_store = HashsetBannedTokenStore::default();
    banned_token_store.add_token(&token).unwrap();

    assert!(
        validate_token_at(&token, &banned_token_store, &jwt_secret, NOW).is_err(),
        "token should be banned"
    );
}

#[test]
fn expired_token_is_rejected() {
    let email = email("test@example.com");
    let jwt_secret = secret("secret");
    let token = generate_auth_token_at(&email, &jwt_secret, NOW)
        .unwrap_or_else(|_| panic!("Failed to generate token"));
    let banned_token_store = HashsetBannedTokenStore::default();
    // Within the TTL plus leeway the token holds; past it, it does not.
    assert!(validate_token_at(&token, &banned_token_store, &jwt_secret, NOW + 600).is_ok());
    assert!(validate_token_at(&token, &banned_token_store, &jwt_secret, NOW + 661).is_err());
}

#[test]
fn tokens_signed_with_other_secret_are_rejected() {
    let email = email("test@example.com");
    let token = generate_auth_token_at(&email, &secret("secret"), NOW)
        .unwrap_or_else(|_| panic!("Failed to generate token"));
    let banned_token_store = HashsetBannedTokenStore::default();
    assert!(
        validate_token_at(&token, &banned_token_store, &secret("other"), NOW).is_err(),
        "token signed with another secret should not validate"
    );
}

#[test]
fn signup_rejects_duplicate_email() {
    let mut user_store = HashmapUserStore::default();
    let first = signup(
        &mut user_store,
        "a@b.com".to_string(),
        secret("password"),
        false,
    );
    assert!(first.is_ok(), "First signup should succeed");
    // A second signup for the address is rejected whatever password it uses.
    let second = signup(
        &mut user_store,
        "a@b.com".to_string(),
        secret("other-password"),
        true,
    );
    assert!(
        matches!(second, Err(AuthAPIError::UserAlreadyExists)),
        "Second signup with the same email should be rejected"
    );
}

#[test]
fn signup_rejects_invalid_input() {
    let mut user_store = HashmapUserStore::default();

    let bad_email = signup(
        &mut user_store,
        "foobar.com".to_string(),
        secret("abcd1234"),
        false,
    );
    match bad_email {
        Err(AuthAPIError::ValidationError(e)) => {
            assert_eq!(e.as_ref(), "Invalid email address")
        },
        _ => panic!("Malformed email should be rejected"),
    }

    let too_short = signup(
        &mut user_store,
        "a@b.com".to_string(),
        secret("abcd123"),
        false,
    );
    match too_short {
        Err(AuthAPIError::ValidationError(e)) => assert_eq!(
            e.as_ref(),
            "Password too short. Should be 8 to 128 characters."
        ),
        _ => panic!("Seven-character password should be rejected"),
    }

    let too_long = signup(
        &mut user_store,
        "a@b.com".to_string(),
        SecretString::new("a".repeat(129)),
        false,
    );
    match too_long {
        Err(AuthAPIError::ValidationError(e)) => assert_eq!(
            e.as_ref(),
            "Password too long. Should be 8 to 128 characters."
        ),
        _ => panic!("129-character password should be rejected"),
    }
}

#[test]
fn login_without_2fa_yields_valid_session() {
    let mut user_store = HashmapUserStore::default();
    let mut two_fa_code_store = HashmapTwoFACodeStore::default();
    let banned_token_store = HashsetBannedTokenStore::default();
    let jwt_secret = secret("secret");

    let created = signup(
        &mut user_store,
        "a@b.com".to_string(),
        secret("password"),
        false,
    )
    .unwrap_or_else(|_| panic!("Signup should succeed"));
    assert_eq!(created.message, "User created successfully");

    let success = login(
        &user_store,
        &mut two_fa_code_store,
        &NoopEmailClient,
        "a@b.com".to_string(),
        secret("password"),
        &jwt_secret,
        NOW,
    )
    .unwrap_or_else(|_| panic!("Login should succeed"));

    assert_eq!(success.status, 200);
    assert!(matches!(success.body, LoginResponse::RegularAuth));
    let token = success.auth_token.expect("A session token should be issued");

    let claims = validate_token_at(&token, &banned_token_store, &jwt_secret, NOW)
        .expect("Freshly issued token should validate");
    assert_eq!(claims.sub, "a@b.com");
}

#[test]
fn login_rejects_incorrect_credentials() {
    let mut user_store = HashmapUserStore::default();
    let mut two_fa_code_store = HashmapTwoFACodeStore::default();
    let jwt_secret = secret("secret");

    signup(
        &mut user_store,
        "foo@bar.com".to_string(),
        secret("abcd1234"),
        false,
    )
    .unwrap_or_else(|_| panic!("Signup should succeed"));

    let wrong_password = login(
        &user_store,
        &mut two_fa_code_store,
        &NoopEmailClient,
        "foo@bar.com".to_string(),
        secret("incorrect"),
        &jwt_secret,
        NOW,
    );
    assert!(matches!(
        wrong_password,
        Err(AuthAPIError::IncorrectCredentials)
    ));

    let unknown_account = login(
        &user_store,
        &mut two_fa_code_store,
        &NoopEmailClient,
        "nobody@bar.com".to_string(),
        secret("abcd1234"),
        &jwt_secret,
        NOW,
    );
    assert!(matches!(
        unknown_account,
        Err(AuthAPIError::IncorrectCredentials)
    ));
}

#[test]
fn login_with_2fa_returns_attempt_id_only() {
    let mut user_store = HashmapUserStore::default();
    let mut two_fa_code_store = HashmapTwoFACodeStore::default();
    let jwt_secret = secret("secret");

    signup(
        &mut user_store,
        "a@b.com".to_string(),
        secret("password"),
        true,
    )
    .unwrap_or_else(|_| panic!("Signup should succeed"));

    let success = login(
        &user_store,
        &mut two_fa_code_store,
        &NoopEmailClient,
        "a@b.com".to_string(),
        secret("password"),
        &jwt_secret,
        NOW,
    )
    .unwrap_or_else(|_| panic!("Login should succeed"));

    assert_eq!(success.status, 206);
    assert!(
        success.auth_token.is_none(),
        "A challenge-pending login must not return a session token"
    );
    let response = match success.body {
        LoginResponse::TwoFactorAuth(response) => response,
        LoginResponse::RegularAuth => panic!("Expected a two-factor challenge"),
    };
    assert_eq!(response.message, "2FA required");

    let (stored_id, stored_code) = two_fa_code_store
        .get_code(&email("a@b.com"))
        .expect("Failed to get 2FA data from store");
    assert_eq!(
        stored_id.as_ref().expose_secret(),
        &response.login_attempt_id,
        "2FA IDs do not match"
    );
    assert_ne!(
        stored_code.as_ref().expose_secret(),
        &response.login_attempt_id,
        "The response must not carry the code"
    );
}

#[test]
fn two_fa_code_succeeds_exactly_once() {
    let mut user_store = HashmapUserStore::default();
    let mut two_fa_code_store = HashmapTwoFACodeStore::default();
    let banned_token_store = HashsetBannedTokenStore::default();
    let jwt_secret = secret("secret");

    signup(
        &mut user_store,
        "a@b.com".to_string(),
        secret("password"),
        true,
    )
    .unwrap_or_else(|_| panic!("Signup should succeed"));
    login(
        &user_store,
        &mut two_fa_code_store,
        &NoopEmailClient,
        "a@b.com".to_string(),
        secret("password"),
        &jwt_secret,
        NOW,
    )
    .unwrap_or_else(|_| panic!("Login should succeed"));

    let (stored_id, stored_code) = two_fa_code_store
        .get_code(&email("a@b.com"))
        .expect("Failed to get 2FA data from store");

    let request = Verify2FARequest {
        email: "a@b.com".to_string(),
        login_attempt_id: stored_id.as_ref().expose_secret().clone(),
        two_fa_code: stored_code.as_ref().expose_secret().clone(),
    };
    let token = verify_2fa(&mut two_fa_code_store, request, &jwt_secret, NOW)
        .unwrap_or_else(|_| panic!("Should be able to login with valid 2FA credentials"));

    let claims = validate_token_at(&token, &banned_token_store, &jwt_secret, NOW)
        .expect("2FA session token should validate");
    assert_eq!(claims.sub, "a@b.com");

    let replay = Verify2FARequest {
        email: "a@b.com".to_string(),
        login_attempt_id: stored_id.as_ref().expose_secret().clone(),
        two_fa_code: stored_code.as_ref().expose_secret().clone(),
    };
    assert!(
        matches!(
            verify_2fa(&mut two_fa_code_store, replay, &jwt_secret, NOW),
            Err(AuthAPIError::IncorrectCredentials)
        ),
        "Code should not be able to be used twice"
    );
}

#[test]
fn superseded_two_fa_challenge_is_rejected() {
    let mut user_store = HashmapUserStore::default();
    let mut two_fa_code_store = HashmapTwoFACodeStore::default();
    let jwt_secret = secret("secret");

    signup(
        &mut user_store,
        "a@b.com".to_string(),
        secret("password"),
        true,
    )
    .unwrap_or_else(|_| panic!("Signup should succeed"));

    login(
        &user_store,
        &mut two_fa_code_store,
        &NoopEmailClient,
        "a@b.com".to_string(),
        secret("password"),
        &jwt_secret,
        NOW,
    )
    .unwrap_or_else(|_| panic!("Login should succeed"));
    let (first_id, first_code) = two_fa_code_store
        .get_code(&email("a@b.com"))
        .expect("Failed to get 2FA data from store");

    login(
        &user_store,
        &mut two_fa_code_store,
        &NoopEmailClient,
        "a@b.com".to_string(),
        secret("password"),
        &jwt_secret,
        NOW,
    )
    .unwrap_or_else(|_| panic!("Second login should succeed"));
    let (second_id, second_code) = two_fa_code_store
        .get_code(&email("a@b.com"))
        .expect("Failed to get 2FA data from store");
    assert!(first_id != second_id, "A fresh attempt id is generated per login");

    let stale = Verify2FARequest {
        email: "a@b.com".to_string(),
        login_attempt_id: first_id.as_ref().expose_secret().clone(),
        two_fa_code: first_code.as_ref().expose_secret().clone(),
    };
    assert!(
        matches!(
            verify_2fa(&mut two_fa_code_store, stale, &jwt_secret, NOW),
            Err(AuthAPIError::IncorrectCredentials)
        ),
        "Should not be able to verify old code"
    );

    let current = Verify2FARequest {
        email: "a@b.com".to_string(),
        login_attempt_id: second_id.as_ref().expose_secret().clone(),
        two_fa_code: second_code.as_ref().expose_secret().clone(),
    };
    assert!(
        verify_2fa(&mut two_fa_code_store, current, &jwt_secret, NOW).is_ok(),
        "The most recently stored challenge is redeemable"
    );
}

#[test]
fn verify_2fa_rejects_invalid_input() {
    let mut two_fa_code_store = HashmapTwoFACodeStore::default();
    let jwt_secret = secret("secret");

    let bad = Verify2FARequest {
        email: "foobar.com".to_string(),
        login_attempt_id: "aeeddfff-94c3-447f-8dd8-1f779c6412c9".to_string(),
        two_fa_code: "123456".to_string(),
    };
    assert!(matches!(
        verify_2fa(&mut two_fa_code_store, bad, &jwt_secret, NOW),
        Err(AuthAPIError::ValidationError(_))
    ));

    let bad_id = Verify2FARequest {
        email: "a@b.com".to_string(),
        login_attempt_id: "geeddfff-94c3-447f-8dd8-1f779c6412c9".to_string(),
        two_fa_code: "123456".to_string(),
    };
    assert!(matches!(
        verify_2fa(&mut two_fa_code_store, bad_id, &jwt_secret, NOW),
        Err(AuthAPIError::ValidationError(_))
    ));

    let bad_code = Verify2FARequest {
        email: "a@b.com".to_string(),
        login_attempt_id: "aeeddfff-94c3-447f-8dd8-1f779c6412c9".to_string(),
        two_fa_code: "12345".to_string(),
    };
    assert!(matches!(
        verify_2fa(&mut two_fa_code_store, bad_code, &jwt_secret, NOW),
        Err(AuthAPIError::ValidationError(_))
    ));

    let unknown = Verify2FARequest {
        email: "foo@bar.com".to_string(),
        login_attempt_id: "32bdc600-115d-4062-8649-8c558c00eb86".to_string(),
        two_fa_code: "123456".to_string(),
    };
    assert!(matches!(
        verify_2fa(&mut two_fa_code_store, unknown, &jwt_secret, NOW),
        Err(AuthAPIError::IncorrectCredentials)
    ));
}

#[test]
fn logout_revokes_the_token_once() {
    let mut banned_token_store = HashsetBannedTokenStore::default();
    let jwt_secret = secret("secret");
    let token = generate_auth_token_at(&email("a@b.com"), &jwt_secret, NOW)
        .unwrap_or_else(|_| panic!("Failed to generate token"));

    assert!(
        logout(&mut banned_token_store, Some(token.clone()), &jwt_secret, NOW).is_ok(),
        "Unexpected error logging out"
    );

    // The very same token, still signed and unexpired, is now refused.
    assert!(matches!(
        validate_token_at(&token, &banned_token_store, &jwt_secret, NOW),
        Err(TokenValidationError::RevokedToken)
    ));

    // Logout is deliberately not idempotent: the second call fails.
    assert!(matches!(
        logout(&mut banned_token_store, Some(token.clone()), &jwt_secret, NOW),
        Err(AuthAPIError::InvalidToken)
    ));

    assert!(matches!(
        logout(&mut banned_token_store, None, &jwt_secret, NOW),
        Err(AuthAPIError::MissingToken)
    ));
}

#[test]
fn verify_token_route_checks_revocation() {
    let mut banned_token_store = HashsetBannedTokenStore::default();
    let jwt_secret = secret("secret");
    let token = generate_auth_token_at(&email("a@b.com"), &jwt_secret, NOW)
        .unwrap_or_else(|_| panic!("Failed to generate token"));

    let valid = VerifyTokenRequest { token: token.expose_secret().clone() };
    assert!(verify_token(&banned_token_store, valid, &jwt_secret, NOW).is_ok());

    let broken = VerifyTokenRequest { token: "invalid".to_string() };
    assert!(matches!(
        verify_token(&banned_token_store, broken, &jwt_secret, NOW),
        Err(AuthAPIError::InvalidToken)
    ));

    logout(&mut banned_token_store, Some(token.clone()), &jwt_secret, NOW)
        .unwrap_or_else(|_| panic!("Unexpected error logging out"));
    let revoked = VerifyTokenRequest { token: token.expose_secret().clone() };
    assert!(matches!(
        verify_token(&banned_token_store, revoked, &jwt_secret, NOW),
        Err(AuthAPIError::InvalidToken)
    ));
}

#[test]
fn delete_user_removes_account_and_revokes_token() {
    let mut user_store = HashmapUserStore::default();
    let mut two_fa_code_store = HashmapTwoFACodeStore::default();
    let mut banned_token_store = HashsetBannedTokenStore::default();
    let jwt_secret = secret("secret");

    signup(
        &mut user_store,
        "a@b.com".to_string(),
        secret("password"),
        false,
    )
    .unwrap_or_else(|_| panic!("Signup should succeed"));
    let success = login(
        &user_store,
        &mut two_fa_code_store,
        &NoopEmailClient,
        "a@b.com".to_string(),
        secret("password"),
        &jwt_secret,
        NOW,
    )
    .unwrap_or_else(|_| panic!("Login should succeed"));
    let token = success.auth_token.expect("A session token should be issued");

    let response = delete_user(
        &mut user_store,
        &mut banned_token_store,
        Some(token.clone()),
        &jwt_secret,
        NOW,
    )
    .unwrap_or_else(|_| panic!("Delete should succeed"));
    assert_eq!(response.message, "User deleted: a@b.com");

    // The token was revoked along the way, so the session is over.
    assert!(matches!(
        validate_token_at(&token, &banned_token_store, &jwt_secret, NOW),
        Err(TokenValidationError::RevokedToken)
    ));

    // The account is gone: a fresh session for it reports the absence.
    // (Minted at another time, so it is not the just-revoked token.)
    let second_token = generate_auth_token_at(&email("a@b.com"), &jwt_secret, NOW + 1)
        .unwrap_or_else(|_| panic!("Failed to generate token"));
    assert!(matches!(
        delete_user(
            &mut user_store,
            &mut banned_token_store,
            Some(second_token),
            &jwt_secret,
            NOW,
        ),
        Err(AuthAPIError::UserNotFound)
    ));

    assert!(matches!(
        delete_user(&mut user_store, &mut banned_token_store, None, &jwt_secret, NOW),
        Err(AuthAPIError::MissingToken)
    ));
}

#[test]
fn generated_identifiers_are_well_formed() {
    // A generated attempt id is canonical UUID text: parsing returns it
    // unchanged, and an upper-case spelling is folded to it.
    let id = LoginAttemptId::default();
    let raw = id.as_ref().expose_secret().clone();
    let reparsed = LoginAttemptId::parse(SecretString::new(raw.clone()))
        .expect("Generated id should parse");
    assert_eq!(reparsed.as_ref().expose_secret(), &raw);
    let upper = raw.to_uppercase();
    let folded = UserId::parse(&upper).expect("Upper-case spelling should parse");
    assert_eq!(folded.as_ref(), &raw, "Parsing canonicalises to lower case");

    // A generated code is exactly six digits.
    let code = TwoFACode::default();
    let code_raw = code.as_ref().expose_secret().clone();
    assert_eq!(code_raw.len(), 6);
    assert!(code_raw.chars().all(|c| c.is_ascii_digit()));
    assert!(TwoFACode::parse(SecretString::new(code_raw)).is_ok());
}

#[test]
fn error_taxonomy_maps_to_statuses() {
    assert_eq!(AuthAPIError::UserAlreadyExists.status_code(), 409);
    assert_eq!(
        AuthAPIError::UserAlreadyExists.response_message(),
        "User already exists"
    );
    assert_eq!(AuthAPIError::IncorrectCredentials.status_code(), 401);
    assert_eq!(
        AuthAPIError::IncorrectCredentials.response_message(),
        "Incorrect credentials"
    );
    assert_eq!(AuthAPIError::UserNotFound.status_code(), 404);
    assert_eq!(AuthAPIError::UserNotFound.response_message(), "User not found");
    assert_eq!(AuthAPIError::MissingToken.status_code(), 400);
    assert_eq!(AuthAPIError::MissingToken.response_message(), "Missing token");
    assert_eq!(AuthAPIError::InvalidToken.status_code(), 401);
    assert_eq!(AuthAPIError::InvalidToken.response_message(), "Invalid token");
    assert_eq!(AuthAPIError::UnexpectedError("cause".to_string()).status_code(), 500);
    // The internal cause never reaches the caller.
    assert_eq!(
        AuthAPIError::UnexpectedError("cause".to_string()).response_message(),
        "Unexpected error"
    );
    let validation = AuthAPIError::ValidationError(ValidationError::new(
        "Password too short. Should be 8 to 128 characters.".to_string(),
    ));
    assert_eq!(validation.status_code(), 400);
    assert_eq!(
        validation.response_message(),
        "Validation error: Password too short. Should be 8 to 128 characters."
    );
}

#[test]
fn corrupt_stored_hash_is_reported_apart_from_mismatch() {
    // A stored value that is not a hash encoding at all never verifies,
    // and the failure names the corruption, not a wrong password.
    let corrupt = secret("not-a-hash-encoding");
    let err = match verify_password_hash(&corrupt, &secret("password")) {
        Ok(()) => panic!("A corrupt stored hash must not verify"),
        Err(err) => err,
    };
    assert_eq!(err.as_ref(), "Failed to parse password hash");

    // A plain mismatch against a well-formed hash reads differently.
    let hash = compute_password_hash(&secret("password")).expect("Failed to hash");
    let err = match verify_password_hash(&hash, &secret("wrong-password")) {
        Ok(()) => panic!("A wrong password must not verify"),
        Err(err) => err,
    };
    assert_eq!(err.as_ref(), "failed to verify password hash");
}
