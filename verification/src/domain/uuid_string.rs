//! UUIDs carried as their canonical text form.
//!
//! Identifiers are held as the canonical hyphenated lower-case text of a
//! UUID. Parsing and generation go through the `uuid` crate; everything
//! built on top works on the plain string.

use vstd::prelude::*;

verus! {

/// What the UUID parser makes of a string: `None` when the string is not
/// a UUID in any accepted format, otherwise the canonical hyphenated
/// lower-case text of the UUID it denotes. The result depends on the
/// characters alone.
pub uninterp spec fn uuid_canon(s: Seq<char>) -> Option<Seq<char>>;

/// A string that is already the canonical text of some UUID.
pub open spec fn is_canonical_uuid(s: Seq<char>) -> bool {
    uuid_canon(s) == Some(s)
}

/// Relies on uuid::Uuid::try_parse and uuid::Uuid::to_string: parses a
/// UUID in any accepted format and re-serialises it canonically.
/// Canonical text parses back to itself, which its documentation
/// plainly gives (to_string yields the hyphenated lower-case form, one
/// of the accepted input formats, denoting the same UUID).
#[verifier::external_body]
pub(crate) fn canonicalize_uuid(s: &String) -> (r: Option<String>)
    ensures
        match r {
            Some(t) => uuid_canon(s@) == Some(t@) && is_canonical_uuid(t@),
            None => uuid_canon(s@) is None,
        },
{
    match uuid::Uuid::try_parse(s.as_str()) {
        Ok(u) => Some(u.to_string()),
        Err(_) => None,
    }
}

/// Relies on uuid::Uuid::new_v4 and uuid::Uuid::to_string: a freshly
/// generated random UUID in canonical text form. Nothing is promised of
/// which UUID comes back, only that the text is canonical.
#[verifier::external_body]
pub(crate) fn fresh_uuid() -> (r: String)
    ensures
        is_canonical_uuid(r@),
{
    uuid::Uuid::new_v4().to_string()
}

} // verus!
