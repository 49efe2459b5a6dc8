//! Minting and checking signed session tokens.
//!
//! A session token is signed, self-contained and carries its subject
//! and expiry; the server keeps no session record beyond the revocation
//! deny-list. Validation checks revocation first, then signature, then
//! expiry: a structurally valid but revoked token must report
//! revocation, the security-relevant condition.

use vstd::prelude::*;

use crate::domain::data_stores::BannedTokenStore;
use crate::domain::data_stores::BannedTokenStoreError;
use crate::domain::email::Email;
use crate::domain::error::ValidationError;
use crate::domain::secret::SecretString;

verus! {

/// How long a session token stays valid, in seconds.
pub const TOKEN_TTL_SECONDS: i64 = 600;

/// The leeway, in seconds, granted past the nominal expiry when a
/// token is checked.
pub const TOKEN_LEEWAY_SECONDS: i64 = 60;

/// The claims a session token carries: the subject (the account's
/// e-mail address) and the expiry as seconds since the epoch.
#[derive(Debug)]
pub struct Claims {
    pub sub: String,
    pub exp: u64,
}

impl Clone for Claims {
    fn clone(&self) -> (r: Self)
        ensures
            r.sub@ == self.sub@,
            r.exp == self.exp,
    {
        Claims { sub: self.sub.clone(), exp: self.exp }
    }
}

/// The token the signer produces for a subject, an expiry and a signing
/// secret. The result depends on the three values alone: the header is
/// fixed and the claims are serialised in a fixed order.
pub uninterp spec fn jwt_token_of(sub: Seq<char>, exp: u64, secret: Seq<char>) -> Seq<char>;

/// What checking a token's signature against a secret yields, apart
/// from any clock: `None` when the token is malformed, signed with
/// another secret, or misses the subject or expiry claim; otherwise the
/// subject and expiry it carries. The result depends on the two strings
/// alone.
pub uninterp spec fn jwt_payload(token: Seq<char>, secret: Seq<char>) -> Option<(Seq<char>, u64)>;

/// Whether a token with the given expiry is expired at `now`, with the
/// leeway the checker grants.
pub open spec fn spec_token_expired(exp: u64, now: i64) -> bool {
    (exp as int) < now - TOKEN_LEEWAY_SECONDS
}

/// Relies on jsonwebtoken::encode with the default HS256 header: signs
/// the claims {sub, exp} with the secret. Its documentation gives that
/// decode with the same secret returns exactly these claims, which
/// `jwt_payload` records. Signing with an HMAC key cannot fail — the
/// header family always matches the key and the claim map always
/// serialises — so the call always produces the token.
#[verifier::external_body]
fn jwt_sign(sub: &String, exp: u64, secret: &String) -> (r: Option<String>)
    ensures
        r is Some,
        r matches Some(t) ==> t@ == jwt_token_of(sub@, exp, secret@) && jwt_payload(t@, secret@)
            == Some((sub@, exp)),
{
    let mut claims = serde_json::Map::new();
    claims.insert("sub".to_owned(), serde_json::Value::String(sub.clone()));
    claims.insert("exp".to_owned(), serde_json::Value::from(exp));
    let key = jsonwebtoken::EncodingKey::from_secret(secret.as_bytes());
    jsonwebtoken::encode(&jsonwebtoken::Header::default(), &serde_json::Value::Object(claims), &key)
        .ok()
}

/// Relies on jsonwebtoken::decode with expiry checking turned off: the
/// signature check and claim extraction alone, which depend on the
/// token and the secret and not on the clock. The expiry is checked
/// separately, against a caller-supplied time.
#[verifier::external_body]
fn jwt_check_signature(token: &String, secret: &String) -> (r: Option<Claims>)
    ensures
        match r {
            Some(c) => jwt_payload(token@, secret@) == Some((c.sub@, c.exp)),
            None => jwt_payload(token@, secret@) is None,
        },
{
    let mut validation = jsonwebtoken::Validation::default();
    validation.validate_exp = false;
    let key = jsonwebtoken::DecodingKey::from_secret(secret.as_bytes());
    let data = jsonwebtoken::decode::<serde_json::Value>(token.as_str(), &key, &validation).ok()?;
    let sub = data.claims.get("sub")?.as_str()?.to_owned();
    let exp = data.claims.get("exp")?.as_u64()?;
    Some(Claims { sub, exp })
}

/// Relies on chrono::Utc::now: the current time as seconds since the
/// epoch. Nothing is promised of the value.
#[verifier::external_body]
pub(crate) fn now_timestamp() -> i64 {
    chrono::Utc::now().timestamp()
}

/// The outcome of checking a session token. Revocation is reported
/// apart from a bad signature or a passed expiry, and a failure of the
/// revocation store itself is reported apart from both: a store that
/// cannot answer says nothing about the token.
#[derive(Debug, Clone, PartialEq)]
pub enum TokenValidationError {
    RevokedToken,
    InvalidToken,
    UnexpectedError(String),
}

/// What validating a token must yield at time `now` against a given
/// revocation set: revocation is checked first, then the signature,
/// then the expiry.
pub open spec fn spec_validate_token(
    token: Seq<char>,
    banned: Set<Seq<char>>,
    secret: Seq<char>,
    now: i64,
) -> Result<(Seq<char>, u64), TokenValidationError> {
    if banned.contains(token) {
        Err(TokenValidationError::RevokedToken)
    } else {
        match jwt_payload(token, secret) {
            None => Err(TokenValidationError::InvalidToken),
            Some(payload) => if spec_token_expired(payload.1, now) {
                Err(TokenValidationError::InvalidToken)
            } else {
                Ok(payload)
            },
        }
    }
}

/// Checks a session token at an explicit time: the revocation store
/// first, then the signature, then the expiry.
///
/// The verdict is the model's whenever the revocation store answers:
/// a success and each of the two rejections imply the matching model
/// outcome, and every token the model rejects is rejected here. Only
/// a store failure escapes, and it is reported as its own class, never
/// as a verdict on the token.
pub fn validate_token_at<B: BannedTokenStore>(
    token: &SecretString,
    banned_token_store: &B,
    jwt_secret: &SecretString,
    now: i64,
) -> (r: Result<Claims, TokenValidationError>)
    requires
        banned_token_store.inv(),
    ensures
        r matches Ok(c) ==> spec_validate_token(
            token@,
            banned_token_store.tokens(),
            jwt_secret@,
            now,
        ) == Ok::<(Seq<char>, u64), TokenValidationError>((c.sub@, c.exp)),
        r matches Err(TokenValidationError::RevokedToken) ==> spec_validate_token(
            token@,
            banned_token_store.tokens(),
            jwt_secret@,
            now,
        ) == Err::<(Seq<char>, u64), _>(TokenValidationError::RevokedToken),
        r matches Err(TokenValidationError::InvalidToken) ==> spec_validate_token(
            token@,
            banned_token_store.tokens(),
            jwt_secret@,
            now,
        ) == Err::<(Seq<char>, u64), _>(TokenValidationError::InvalidToken),
        banned_token_store.tokens().contains(token@) ==> (r matches Err(
            TokenValidationError::RevokedToken,
        ) || r matches Err(TokenValidationError::UnexpectedError(_))),
        spec_validate_token(token@, banned_token_store.tokens(), jwt_secret@, now) matches Err(_)
            ==> r is Err,
        spec_validate_token(token@, banned_token_store.tokens(), jwt_secret@, now) matches Ok(p)
            ==> ((r matches Ok(c) && (c.sub@, c.exp) == p) || r matches Err(
            TokenValidationError::UnexpectedError(_),
        )),
{
    match banned_token_store.check_token(token) {
        Ok(()) => (),
        Err(BannedTokenStoreError::BannedToken) => {
            return Err(TokenValidationError::RevokedToken);
        },
        Err(BannedTokenStoreError::UnexpectedError(reason)) => {
            return Err(TokenValidationError::UnexpectedError(reason));
        },
    }
    let claims = match jwt_check_signature(token.expose_secret(), jwt_secret.expose_secret()) {
        Some(c) => c,
        None => {
            return Err(TokenValidationError::InvalidToken);
        },
    };
    if token_expired(claims.exp, now) {
        return Err(TokenValidationError::InvalidToken);
    }
    Ok(claims)
}

/// Checks a session token at the current time. What came back is
/// correct for some reading of the clock; the revocation promises hold
/// at any time.
pub fn validate_token<B: BannedTokenStore>(
    token: &SecretString,
    banned_token_store: &B,
    jwt_secret: &SecretString,
) -> (r: Result<Claims, TokenValidationError>)
    requires
        banned_token_store.inv(),
    ensures
        r matches Ok(c) ==> jwt_payload(token@, jwt_secret@) == Some((c.sub@, c.exp))
            && !banned_token_store.tokens().contains(token@),
        banned_token_store.tokens().contains(token@) ==> (r matches Err(
            TokenValidationError::RevokedToken,
        ) || r matches Err(TokenValidationError::UnexpectedError(_))),
        r matches Err(TokenValidationError::RevokedToken) ==> banned_token_store.tokens()
            .contains(token@),
        jwt_payload(token@, jwt_secret@) is None ==> r is Err,
{
    let now = now_timestamp();
    validate_token_at(token, banned_token_store, jwt_secret, now)
}

/// Whether a token expiry has passed at `now`, past the leeway.
fn token_expired(exp: u64, now: i64) -> (r: bool)
    ensures
        r == spec_token_expired(exp, now),
{
    let cutoff: i64 = if now >= i64::MIN + TOKEN_LEEWAY_SECONDS {
        now - TOKEN_LEEWAY_SECONDS
    } else {
        i64::MIN
    };
    if cutoff < 0 {
        false
    } else {
        exp < (cutoff as u64)
    }
}

/// Mints a session token for a subject at an explicit time: the expiry
/// is the fixed TTL past `now`, and the claims are signed with the
/// server-held secret. No store is written. Minting succeeds exactly
/// when the expiry is representable as a timestamp; signing itself
/// cannot fail.
pub fn generate_auth_token_at(email: &Email, jwt_secret: &SecretString, now: i64) -> (r: Result<
    SecretString,
    ValidationError,
>)
    ensures
        match r {
            Ok(t) => now + TOKEN_TTL_SECONDS <= u64::MAX && now + TOKEN_TTL_SECONDS >= 0 && t@
                == jwt_token_of(email@, (now + TOKEN_TTL_SECONDS) as u64, jwt_secret@)
                && jwt_payload(t@, jwt_secret@) == Some(
                (email@, (now + TOKEN_TTL_SECONDS) as u64),
            ),
            Err(e) => now + TOKEN_TTL_SECONDS < 0 && e@ == "failed to compute token expiry"@,
        },
{
    let exp: u64;
    if now < 0 {
        let exp_signed: i64 = now + TOKEN_TTL_SECONDS;
        if exp_signed < 0 {
            return Err(ValidationError::new("failed to compute token expiry".to_owned()));
        }
        exp = exp_signed as u64;
    } else {
        exp = (now as u64) + (TOKEN_TTL_SECONDS as u64);
    }
    match jwt_sign(email.as_ref().expose_secret(), exp, jwt_secret.expose_secret()) {
        Some(t) => Ok(SecretString::new(t)),
        None => Err(ValidationError::new("failed to create token".to_owned())),
    }
}

/// Mints a session token for a subject at the current time. It fails
/// only when the clock reads more than the TTL before the epoch.
pub fn generate_auth_token(email: &Email, jwt_secret: &SecretString) -> (r: Result<
    SecretString,
    ValidationError,
>)
    ensures
        r matches Ok(t) ==> exists|exp: u64|
            t@ == jwt_token_of(email@, exp, jwt_secret@) && jwt_payload(t@, jwt_secret@) == Some(
                (email@, exp),
            ),
        r matches Err(e) ==> e@ == "failed to compute token expiry"@,
{
    let now = now_timestamp();
    generate_auth_token_at(email, jwt_secret, now)
}

/// A revoked token is rejected as revoked, whatever its signature and
/// expiry would say: revocation is adjudicated before either.
pub proof fn lemma_revoked_token_rejected(
    token: Seq<char>,
    banned: Set<Seq<char>>,
    secret: Seq<char>,
    now: i64,
)
    requires
        banned.contains(token),
    ensures
        spec_validate_token(token, banned, secret, now) == Err::<(Seq<char>, u64), _>(
            TokenValidationError::RevokedToken,
        ),
{
}

/// A freshly minted token that has not been revoked validates, and the
/// subject it carries is the address it was minted for.
pub proof fn lemma_fresh_token_validates(
    sub: Seq<char>,
    exp: u64,
    secret: Seq<char>,
    banned: Set<Seq<char>>,
    now: i64,
)
    requires
        !banned.contains(jwt_token_of(sub, exp, secret)),
        jwt_payload(jwt_token_of(sub, exp, secret), secret) == Some((sub, exp)),
        !spec_token_expired(exp, now),
    ensures
        spec_validate_token(jwt_token_of(sub, exp, secret), banned, secret, now) == Ok::<
            _,
            TokenValidationError,
        >((sub, exp)),
{
}

} // verus!
