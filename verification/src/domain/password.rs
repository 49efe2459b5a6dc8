//! The raw password secret, validated on construction.

use vstd::prelude::*;

use crate::domain::error::ValidationError;
use crate::domain::secret::SecretString;

verus! {

/// The smallest password length accepted, in characters.
pub const PASSWORD_MIN_CHARS: usize = 8;

/// The largest password length accepted, in characters.
pub const PASSWORD_MAX_CHARS: usize = 128;

/// A password is valid when its character count (not byte count) lies
/// within the accepted bounds.
pub open spec fn valid_password(s: Seq<char>) -> bool {
    PASSWORD_MIN_CHARS <= s.len() <= PASSWORD_MAX_CHARS
}

/// A validated raw password. Exists transiently during signup and login;
/// never persisted.
pub struct Password(SecretString);

impl View for Password {
    type V = Seq<char>;

    closed spec fn view(&self) -> Seq<char> {
        self.0@
    }
}

impl Password {
    /// Parsing is the only way to obtain a password, so every value of
    /// the type lies within the accepted bounds.
    #[verifier::type_invariant]
    pub open spec fn bounds_hold(&self) -> bool {
        valid_password(self@)
    }

    /// Accepts exactly the strings of 8 to 128 characters, and reports
    /// which bound a rejected string violated.
    pub fn parse(s: SecretString) -> (r: Result<Password, ValidationError>)
        ensures
            match r {
                Ok(p) => valid_password(s@) && p@ == s@,
                Err(e) => !valid_password(s@) && e@ == if s@.len() < PASSWORD_MIN_CHARS {
                    "Password too short. Should be 8 to 128 characters."@
                } else {
                    "Password too long. Should be 8 to 128 characters."@
                },
            },
    {
        validate_password(&s)?;
        Ok(Password(s))
    }

    pub fn as_ref(&self) -> (r: &SecretString)
        ensures
            r@ == self@,
    {
        &self.0
    }
}

impl Clone for Password {
    fn clone(&self) -> (r: Self)
        ensures
            r@ == self@,
    {
        proof {
            use_type_invariant(self);
        }
        Password(self.0.clone())
    }
}

impl PartialEq for Password {
    fn eq(&self, other: &Self) -> (r: bool) {
        self.0 == other.0
    }
}

impl vstd::std_specs::cmp::PartialEqSpecImpl for Password {
    open spec fn obeys_eq_spec() -> bool {
        true
    }

    open spec fn eq_spec(&self, other: &Self) -> bool {
        self@ == other@
    }
}

fn validate_password(s: &SecretString) -> (r: Result<(), ValidationError>)
    ensures
        match r {
            Ok(()) => valid_password(s@),
            Err(e) => !valid_password(s@) && e@ == if s@.len() < PASSWORD_MIN_CHARS {
                "Password too short. Should be 8 to 128 characters."@
            } else {
                "Password too long. Should be 8 to 128 characters."@
            },
        },
{
    let char_count = vstd::string::StrSliceExecFns::unicode_len(
        s.expose_secret().as_str(),
    );

    if char_count < PASSWORD_MIN_CHARS {
        return Err(ValidationError::new(
            "Password too short. Should be 8 to 128 characters.".to_owned(),
        ));
    }

    if char_count > PASSWORD_MAX_CHARS {
        return Err(ValidationError::new(
            "Password too long. Should be 8 to 128 characters.".to_owned(),
        ));
    }

    Ok(())
}

} // verus!
