//! Error taxonomy of the resolution core.
//!
//! `MissingField` reports required identity data absent on a raw event and
//! always aborts resolution; `DependencyError` reports a failure of an
//! external collaborator (the configuration store or the key-value store)
//! and is propagated unchanged. A cache miss or an expired record is not an
//! error: lookups surface those as an empty result.

use vstd::prelude::*;

verus! {

/// A failure of event resolution or of an external collaborator.
#[derive(Debug, PartialEq, Eq)]
pub enum Error {
    /// Required identity data is absent on the raw event; the payload names
    /// the missing field.
    MissingField(String),
    /// An external collaborator is unreachable or returned an unexpected
    /// result.
    DependencyError,
}

/// Holds when `e` reports exactly the missing field named `field`.
pub open spec fn is_missing_field(e: Error, field: Seq<char>) -> bool {
    e matches Error::MissingField(f) && f@ == field
}

impl Error {
    /// The error reported when a guild-originated event carries no member
    /// data.
    pub fn missing_member() -> (e: Error)
        ensures
            is_missing_field(e, "member"@),
    {
        Error::MissingField("member".to_owned())
    }

    /// The error reported when an event carries no user identity: a member
    /// without an embedded user on the guild path, or no top-level user on
    /// the private path.
    pub fn missing_user() -> (e: Error)
        ensures
            is_missing_field(e, "user"@),
    {
        Error::MissingField("user".to_owned())
    }
}

} // verus!
