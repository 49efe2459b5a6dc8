//! The display name of a project member, validated on construction.

use vstd::prelude::*;

use crate::domain::error::ValidationError;

verus! {

/// A name is valid when it has 1 to 255 characters.
pub open spec fn valid_name(s: Seq<char>) -> bool {
    1 <= s.len() <= 255
}

/// A validated member name.
#[derive(Debug)]
pub struct MemberName(String);

impl View for MemberName {
    type V = Seq<char>;

    closed spec fn view(&self) -> Seq<char> {
        self.0@
    }
}

impl MemberName {
    /// Accepts exactly the strings of 1 to 255 characters.
    pub fn parse(name: String) -> (r: Result<MemberName, ValidationError>)
        ensures
            match r {
                Ok(n) => valid_name(name@) && n@ == name@,
                Err(e) => !valid_name(name@) && e@ == if name@.len() < 1 {
                    "Member name cannot be empty"@
                } else {
                    "Max name length is 255 characters"@
                },
            },
    {
        let char_count = vstd::string::StrSliceExecFns::unicode_len(name.as_str());
        if char_count < 1 {
            Err(ValidationError::new("Member name cannot be empty".to_owned()))
        } else if char_count > 255 {
            Err(ValidationError::new("Max name length is 255 characters".to_owned()))
        } else {
            Ok(MemberName(name))
        }
    }

    pub fn as_ref(&self) -> (r: &String)
        ensures
            r@ == self@,
    {
        &self.0
    }
}

impl Clone for MemberName {
    fn clone(&self) -> (r: Self)
        ensures
            r@ == self@,
    {
        MemberName(self.0.clone())
    }
}

impl PartialEq for MemberName {
    fn eq(&self, other: &Self) -> (r: bool) {
        self.0 == other.0
    }
}

impl vstd::std_specs::cmp::PartialEqSpecImpl for MemberName {
    open spec fn obeys_eq_spec() -> bool {
        true
    }

    open spec fn eq_spec(&self, other: &Self) -> bool {
        self@ == other@
    }
}

} // verus!
