//! The identifier of a project member.

use vstd::prelude::*;

use crate::domain::error::ValidationError;
use crate::domain::uuid_string::canonicalize_uuid;
use crate::domain::uuid_string::fresh_uuid;
use crate::domain::uuid_string::is_canonical_uuid;
use crate::domain::uuid_string::uuid_canon;

verus! {

/// A UUID identifying a project member, held in canonical text form.
#[derive(Debug)]
pub struct MemberId(String);

impl View for MemberId {
    type V = Seq<char>;

    closed spec fn view(&self) -> Seq<char> {
        self.0@
    }
}

impl MemberId {
    /// Accepts exactly the strings the UUID parser accepts, and holds
    /// the canonical text of the UUID they denote.
    pub fn parse(id: &str) -> (r: Result<MemberId, ValidationError>)
        ensures
            match r {
                Ok(m) => uuid_canon(id@) == Some(m@) && is_canonical_uuid(m@),
                Err(e) => uuid_canon(id@) is None && e@
                    == "Invalid member ID: failed to parse a UUID"@,
            },
    {
        match canonicalize_uuid(&id.to_owned()) {
            Some(canonical) => Ok(MemberId(canonical)),
            None => Err(
                ValidationError::new("Invalid member ID: failed to parse a UUID".to_owned()),
            ),
        }
    }

    pub fn as_ref(&self) -> (r: &String)
        ensures
            r@ == self@,
    {
        &self.0
    }
}

impl Default for MemberId {
    /// A freshly generated identifier.
    fn default() -> (r: Self)
        ensures
            is_canonical_uuid(r@),
    {
        MemberId(fresh_uuid())
    }
}

impl Clone for MemberId {
    fn clone(&self) -> (r: Self)
        ensures
            r@ == self@,
    {
        MemberId(self.0.clone())
    }
}

impl PartialEq for MemberId {
    fn eq(&self, other: &Self) -> (r: bool) {
        self.0 == other.0
    }
}

impl vstd::std_specs::cmp::PartialEqSpecImpl for MemberId {
    open spec fn obeys_eq_spec() -> bool {
        true
    }

    open spec fn eq_spec(&self, other: &Self) -> bool {
        self@ == other@
    }
}

} // verus!
