//! How one fetch attempt's HTTP status is read: "not found" is a
//! normal, expected outcome that merely skips a date, while every other
//! non-success status is a hard failure.

use vstd::prelude::*;

verus! {

/// What an HTTP status says about a manifest lookup.
#[derive(Clone, Copy, PartialEq, Eq, Structural, Debug)]
pub enum StatusClass {
    /// The body holds the manifest document.
    Success,
    /// No manifest is published at that URL; skip and continue.
    Absent,
    /// Any other status: a hard failure that aborts the whole search.
    Error,
}

pub open spec fn classify_spec(status: u16) -> StatusClass {
    if status == 200 {
        StatusClass::Success
    } else if status == 404 {
        StatusClass::Absent
    } else {
        StatusClass::Error
    }
}

/// Classifies the HTTP status of a manifest fetch.
pub fn classify_status(status: u16) -> (r: StatusClass)
    ensures
        r == classify_spec(status),
{
    if status == 200 {
        StatusClass::Success
    } else if status == 404 {
        StatusClass::Absent
    } else {
        StatusClass::Error
    }
}

} // verus!
