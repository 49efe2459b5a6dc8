//! The display name of a project, validated on construction.

use vstd::prelude::*;

use crate::domain::error::ValidationError;
use crate::domain::member_name::valid_name;

verus! {

/// A validated project name: 1 to 255 characters.
#[derive(Debug)]
pub struct ProjectName(String);

impl View for ProjectName {
    type V = Seq<char>;

    closed spec fn view(&self) -> Seq<char> {
        self.0@
    }
}

impl ProjectName {
    /// Accepts exactly the strings of 1 to 255 characters.
    pub fn parse(name: &str) -> (r: Result<ProjectName, ValidationError>)
        ensures
            match r {
                Ok(n) => valid_name(name@) && n@ == name@,
                Err(e) => !valid_name(name@) && e@ == if name@.len() < 1 {
                    "Project name cannot be empty"@
                } else {
                    "Max name length is 255 characters"@
                },
            },
    {
        let char_count = vstd::string::StrSliceExecFns::unicode_len(name);
        if char_count < 1 {
            Err(ValidationError::new("Project name cannot be empty".to_owned()))
        } else if char_count > 255 {
            Err(ValidationError::new("Max name length is 255 characters".to_owned()))
        } else {
            Ok(ProjectName(name.to_owned()))
        }
    }

    pub fn as_ref(&self) -> (r: &String)
        ensures
            r@ == self@,
    {
        &self.0
    }
}

impl Clone for ProjectName {
    fn clone(&self) -> (r: Self)
        ensures
            r@ == self@,
    {
        ProjectName(self.0.clone())
    }
}

impl PartialEq for ProjectName {
    fn eq(&self, other: &Self) -> (r: bool) {
        self.0 == other.0
    }
}

impl vstd::std_specs::cmp::PartialEqSpecImpl for ProjectName {
    open spec fn obeys_eq_spec() -> bool {
        true
    }

    open spec fn eq_spec(&self, other: &Self) -> bool {
        self@ == other@
    }
}

} // verus!
