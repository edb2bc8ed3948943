//! The error taxonomy shared by every resource handler.

use vstd::prelude::*;

verus! {

/// Why a request failed.
///
/// `Validation` covers malformed identifiers, unrecognized enum values and
/// access tokens the platform rejected; `NotFound` an identifier that does
/// not resolve to a record; `Upstream` a persistence or platform collaborator
/// that could not answer.
#[derive(Clone, Copy, Debug, PartialEq, Eq, Structural)]
pub enum ApiError {
    Validation,
    NotFound,
    Upstream,
}

impl ApiError {
    /// A short description, for logging at the transport layer.
    pub fn describe(&self) -> (r: &'static str)
        ensures
            self is Validation ==> r@ == "validation error"@,
            self is NotFound ==> r@ == "not found"@,
            self is Upstream ==> r@ == "upstream error"@,
    {
        match self {
            ApiError::Validation => "validation error",
            ApiError::NotFound => "not found",
            ApiError::Upstream => "upstream error",
        }
    }
}

} // verus!
