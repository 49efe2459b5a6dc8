//! The identifier of one pending two-factor login attempt.

use vstd::prelude::*;

use crate::domain::error::ValidationError;
use crate::domain::secret::SecretString;
use crate::domain::uuid_string::canonicalize_uuid;
use crate::domain::uuid_string::fresh_uuid;
use crate::domain::uuid_string::is_canonical_uuid;
use crate::domain::uuid_string::uuid_canon;

verus! {

/// A UUID identifying one pending two-factor challenge, held in
/// canonical text form. Freshly generated per login attempt that
/// requires a second factor; never reused.
pub struct LoginAttemptId(SecretString);

impl View for LoginAttemptId {
    type V = Seq<char>;

    closed spec fn view(&self) -> Seq<char> {
        self.0@
    }
}

impl LoginAttemptId {
    /// Accepts exactly the strings the UUID parser accepts, and holds
    /// the canonical text of the UUID they denote.
    pub fn parse(id: SecretString) -> (r: Result<LoginAttemptId, ValidationError>)
        ensures
            match r {
                Ok(l) => uuid_canon(id@) == Some(l@) && is_canonical_uuid(l@),
                Err(e) => uuid_canon(id@) is None && e@ == "Invalid login attempt ID"@,
            },
    {
        match canonicalize_uuid(id.expose_secret()) {
            Some(canonical) => Ok(LoginAttemptId(SecretString::new(canonical))),
            None => Err(ValidationError::new("Invalid login attempt ID".to_owned())),
        }
    }

    pub fn as_ref(&self) -> (r: &SecretString)
        ensures
            r@ == self@,
    {
        &self.0
    }
}

impl Default for LoginAttemptId {
    /// A freshly generated attempt identifier.
    fn default() -> (r: Self)
        ensures
            is_canonical_uuid(r@),
    {
        LoginAttemptId(SecretString::new(fresh_uuid()))
    }
}

impl Clone for LoginAttemptId {
    fn clone(&self) -> (r: Self)
        ensures
            r@ == self@,
    {
        LoginAttemptId(self.0.clone())
    }
}

impl PartialEq for LoginAttemptId {
    fn eq(&self, other: &Self) -> (r: bool) {
        self.0 == other.0
    }
}

impl vstd::std_specs::cmp::PartialEqSpecImpl for LoginAttemptId {
    open spec fn obeys_eq_spec() -> bool {
        true
    }

    open spec fn eq_spec(&self, other: &Self) -> bool {
        self@ == other@
    }
}

} // verus!
