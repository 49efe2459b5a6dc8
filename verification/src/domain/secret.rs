//! A wrapper for sensitive strings.
//!
//! The raw value is reachable only through [`SecretString::expose_secret`],
//! and the type deliberately has no `Debug` or `Display` form, so a secret
//! can never end up in a log line by accident.

use vstd::prelude::*;

verus! {

/// A string whose content is sensitive (a password, a raw token, an
/// address used as an account key).
pub struct SecretString {
    raw: String,
}

impl View for SecretString {
    type V = Seq<char>;

    closed spec fn view(&self) -> Seq<char> {
        self.raw@
    }
}

impl SecretString {
    /// Wraps a raw string as a secret.
    pub fn new(raw: String) -> (r: Self)
        ensures
            r@ == raw@,
    {
        SecretString { raw }
    }

    /// The explicit, deliberately named way to reach the raw value.
    pub fn expose_secret(&self) -> (r: &String)
        ensures
            r@ == self@,
    {
        &self.raw
    }
}

impl Clone for SecretString {
    fn clone(&self) -> (r: Self)
        ensures
            r@ == self@,
    {
        SecretString { raw: self.raw.clone() }
    }
}

impl PartialEq for SecretString {
    fn eq(&self, other: &Self) -> (r: bool) {
        self.raw == other.raw
    }
}

impl vstd::std_specs::cmp::PartialEqSpecImpl for SecretString {
    open spec fn obeys_eq_spec() -> bool {
        true
    }

    open spec fn eq_spec(&self, other: &Self) -> bool {
        self@ == other@
    }
}

} // verus!
