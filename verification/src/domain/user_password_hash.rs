//! Salted password hashes: computing, parsing and verifying.

use vstd::prelude::*;

use crate::domain::error::ValidationError;
use crate::domain::password::Password;
use crate::domain::secret::SecretString;

verus! {

/// Whether a string parses as a structurally valid password-hash
/// encoding (algorithm tag, parameters, salt and digest).
pub uninterp spec fn phc_parses(s: Seq<char>) -> bool;

/// Whether the hash verifier accepts the candidate password against the
/// hash string. The result depends on the two strings alone: the salt
/// and the cost parameters are read back out of the hash string.
pub uninterp spec fn password_matches(hash: Seq<char>, password: Seq<char>) -> bool;

/// Relies on argon2::password_hash::PasswordHash::new: whether the
/// string is a structurally valid hash encoding.
#[verifier::external_body]
fn hash_string_parses(s: &String) -> (r: bool)
    ensures
        r == phc_parses(s@),
{
    argon2::password_hash::PasswordHash::new(s.as_str()).is_ok()
}

/// Relies on argon2::Argon2::verify_password: whether the candidate
/// password matches the hash string. The verifier parses the hash
/// before anything else, so a string that does not parse as a hash
/// matches no password; that fact is recorded beside the result.
#[verifier::external_body]
fn argon2_verify(hash: &String, password: &String) -> (r: bool)
    ensures
        r == password_matches(hash@, password@),
        !phc_parses(hash@) ==> !r,
{
    match argon2::password_hash::PasswordHash::new(hash.as_str()) {
        Ok(parsed) => argon2::PasswordVerifier::verify_password(
            &argon2::Argon2::default(),
            password.as_bytes(),
            &parsed,
        ).is_ok(),
        Err(_) => false,
    }
}

/// Relies on argon2::Argon2::hash_password with a fresh random salt and
/// fixed Argon2id cost parameters. Its documentation gives that the
/// produced encoding is a valid hash string and that verify_password
/// accepts the hashed password against it. The fixed parameters are
/// within the algorithm's accepted ranges and the generated salt is
/// always accepted, so the one input the call refuses is a password
/// over the four-gigabyte byte-length bound.
#[verifier::external_body]
fn argon2_hash(password: &String) -> (r: Option<String>)
    ensures
        r matches Some(h) ==> phc_parses(h@) && password_matches(h@, password@),
        4 * password@.len() <= 0xFFFFFFFF ==> r is Some,
{
    let salt = argon2::password_hash::SaltString::generate(&mut rand::thread_rng());
    let params = match argon2::Params::new(15000, 2, 1, None) {
        Ok(p) => p,
        Err(_) => return None,
    };
    let hasher = argon2::Argon2::new(argon2::Algorithm::Argon2id, argon2::Version::V0x13, params);
    match argon2::PasswordHasher::hash_password(&hasher, password.as_bytes(), &salt) {
        Ok(h) => Some(h.to_string()),
        Err(_) => None,
    }
}

/// A structurally valid password hash string. Persisted; substitutes
/// for the password at rest.
pub struct UserPasswordHash(SecretString);

impl View for UserPasswordHash {
    type V = Seq<char>;

    closed spec fn view(&self) -> Seq<char> {
        self.0@
    }
}

impl UserPasswordHash {
    /// Accepts exactly the structurally valid hash encodings. A failure
    /// here signals stored-data corruption, not bad user input, and is
    /// mapped to an unexpected error by callers.
    pub fn parse(s: SecretString) -> (r: Result<UserPasswordHash, ValidationError>)
        ensures
            match r {
                Ok(h) => phc_parses(s@) && h@ == s@,
                Err(e) => !phc_parses(s@) && e@ == "Failed to parse password hash"@,
            },
    {
        if hash_string_parses(s.expose_secret()) {
            Ok(UserPasswordHash(s))
        } else {
            Err(ValidationError::new("Failed to parse password hash".to_owned()))
        }
    }

    /// Hashes a validated password with a fresh random salt. This
    /// always succeeds — a validated password lies far under the
    /// hasher's input bound — and whatever salt was drawn, the
    /// produced hash verifies against the password.
    pub fn from_password(password: &Password) -> (r: Result<UserPasswordHash, ValidationError>)
        ensures
            r matches Ok(h) && phc_parses(h@) && password_matches(h@, password@),
    {
        proof {
            use_type_invariant(password);
        }
        let hash = compute_password_hash(password.as_ref())?;
        Ok(UserPasswordHash(hash))
    }

    pub fn as_ref(&self) -> (r: &SecretString)
        ensures
            r@ == self@,
    {
        &self.0
    }
}

impl Clone for UserPasswordHash {
    fn clone(&self) -> (r: Self)
        ensures
            r@ == self@,
    {
        UserPasswordHash(self.0.clone())
    }
}

impl PartialEq for UserPasswordHash {
    fn eq(&self, other: &Self) -> (r: bool) {
        self.0 == other.0
    }
}

impl vstd::std_specs::cmp::PartialEqSpecImpl for UserPasswordHash {
    open spec fn obeys_eq_spec() -> bool {
        true
    }

    open spec fn eq_spec(&self, other: &Self) -> bool {
        self@ == other@
    }
}

/// Verifies a candidate password against a stored hash string. Succeeds
/// exactly when the hash verifier accepts the pair. A stored hash that
/// does not even parse signals stored-data corruption and is reported
/// apart from a plain mismatch, so the two are never conflated.
pub fn verify_password_hash(expected_password_hash: &SecretString, password_candidate:
    &SecretString) -> (r: Result<(), ValidationError>)
    ensures
        match r {
            Ok(()) => password_matches(expected_password_hash@, password_candidate@),
            Err(e) => !password_matches(expected_password_hash@, password_candidate@) && e@
                == if !phc_parses(expected_password_hash@) {
                "Failed to parse password hash"@
            } else {
                "failed to verify password hash"@
            },
        },
{
    if argon2_verify(expected_password_hash.expose_secret(), password_candidate.expose_secret()) {
        Ok(())
    } else if !hash_string_parses(expected_password_hash.expose_secret()) {
        Err(ValidationError::new("Failed to parse password hash".to_owned()))
    } else {
        Err(ValidationError::new("failed to verify password hash".to_owned()))
    }
}

/// Computes a salted hash of the given secret with fixed cost
/// parameters. Whatever salt was drawn, the result is a structurally
/// valid hash string that verifies against the input; only an input
/// past the hasher's four-gigabyte bound is refused.
pub fn compute_password_hash(password: &SecretString) -> (r: Result<SecretString, ValidationError>)
    ensures
        match r {
            Ok(h) => phc_parses(h@) && password_matches(h@, password@),
            Err(e) => e@ == "Failed to compute password hash"@,
        },
        4 * password@.len() <= 0xFFFFFFFF ==> r is Ok,
{
    match argon2_hash(password.expose_secret()) {
        Some(h) => Ok(SecretString::new(h)),
        None => Err(ValidationError::new("Failed to compute password hash".to_owned())),
    }
}

} // verus!
