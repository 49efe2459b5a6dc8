//! A validated e-mail address.

use vstd::prelude::*;

use crate::domain::error::ValidationError;
use crate::domain::secret::SecretString;

verus! {

/// Whether a string is a syntactically valid e-mail address, in the
/// sense of the address validator this crate relies on.
pub uninterp spec fn is_email(s: Seq<char>) -> bool;

/// Relies on validator::validate_email: whether the string satisfies
/// address syntax. The result depends on the characters alone.
#[verifier::external_body]
fn email_is_valid(s: &String) -> (r: bool)
    ensures
        r == is_email(s@),
{
    validator::validate_email(s.as_str())
}

/// A validated e-mail address. Immutable once constructed; the raw value
/// is treated as sensitive, since it keys an account.
pub struct Email(SecretString);

impl View for Email {
    type V = Seq<char>;

    closed spec fn view(&self) -> Seq<char> {
        self.0@
    }
}

impl Email {
    /// Accepts exactly the syntactically valid addresses.
    pub fn parse(s: SecretString) -> (r: Result<Email, ValidationError>)
        ensures
            match r {
                Ok(e) => is_email(s@) && e@ == s@,
                Err(e) => !is_email(s@) && e@ == "Invalid email address"@,
            },
    {
        if email_is_valid(s.expose_secret()) {
            Ok(Email(s))
        } else {
            Err(ValidationError::new("Invalid email address".to_owned()))
        }
    }

    pub fn as_ref(&self) -> (r: &SecretString)
        ensures
            r@ == self@,
    {
        &self.0
    }
}

impl Clone for Email {
    fn clone(&self) -> (r: Self)
        ensures
            r@ == self@,
    {
        Email(self.0.clone())
    }
}

impl PartialEq for Email {
    fn eq(&self, other: &Self) -> (r: bool) {
        self.0 == other.0
    }
}

impl vstd::std_specs::cmp::PartialEqSpecImpl for Email {
    open spec fn obeys_eq_spec() -> bool {
        true
    }

    open spec fn eq_spec(&self, other: &Self) -> bool {
        self@ == other@
    }
}

} // verus!
