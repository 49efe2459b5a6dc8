//! The identifier of an account.

use vstd::prelude::*;

use crate::domain::error::ValidationError;
use crate::domain::uuid_string::canonicalize_uuid;
use crate::domain::uuid_string::fresh_uuid;
use crate::domain::uuid_string::is_canonical_uuid;
use crate::domain::uuid_string::uuid_canon;

verus! {

/// A UUID identifying an account, held in canonical text form.
/// Generated at account creation; immutable.
#[derive(Debug)]
pub struct UserId(String);

impl View for UserId {
    type V = Seq<char>;

    closed spec fn view(&self) -> Seq<char> {
        self.0@
    }
}

impl UserId {
    /// Accepts exactly the strings the UUID parser accepts, and holds
    /// the canonical text of the UUID they denote.
    pub fn parse(id: &str) -> (r: Result<UserId, ValidationError>)
        ensures
            match r {
                Ok(u) => uuid_canon(id@) == Some(u@) && is_canonical_uuid(u@),
                Err(e) => uuid_canon(id@) is None && e@ == "Invalid user ID"@,
            },
    {
        match canonicalize_uuid(&id.to_owned()) {
            Some(canonical) => Ok(UserId(canonical)),
            None => Err(ValidationError::new("Invalid user ID".to_owned())),
        }
    }

    pub fn as_ref(&self) -> (r: &String)
        ensures
            r@ == self@,
    {
        &self.0
    }
}

impl Default for UserId {
    /// A freshly generated identifier.
    fn default() -> (r: Self)
        ensures
            is_canonical_uuid(r@),
    {
        UserId(fresh_uuid())
    }
}

impl Clone for UserId {
    fn clone(&self) -> (r: Self)
        ensures
            r@ == self@,
    {
        UserId(self.0.clone())
    }
}

impl PartialEq for UserId {
    fn eq(&self, other: &Self) -> (r: bool) {
        self.0 == other.0
    }
}

impl vstd::std_specs::cmp::PartialEqSpecImpl for UserId {
    open spec fn obeys_eq_spec() -> bool {
        true
    }

    open spec fn eq_spec(&self, other: &Self) -> bool {
        self@ == other@
    }
}

} // verus!
