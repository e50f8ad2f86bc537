//! Status codes returned across the C-ABI boundary.

use vstd::prelude::*;

verus! {

/// Outcome of an export request, reported to C callers as an integer code.
///
/// `ParsingFailed` is the catch-all rejection for invalid (null) inputs;
/// `NotAnUtf8String` means the serialized tree could not be represented as
/// a NUL-terminated byte string because it holds an interior NUL byte.
#[derive(Clone, Copy, Debug, PartialEq, Eq, Structural)]
pub enum Status {
    Success,
    ParsingFailed,
    NotAnUtf8String,
}

/// The integer each status is reported as, following the numbering of
/// resvg's C API error enumeration.
pub open spec fn status_code(s: Status) -> i32 {
    match s {
        Status::Success => 0,
        Status::NotAnUtf8String => 1,
        Status::ParsingFailed => 6,
    }
}

impl Status {
    /// The integer code handed back across the boundary.
    pub fn code(&self) -> (r: i32)
        ensures
            r == status_code(*self),
    {
        match self {
            Status::Success => 0,
            Status::NotAnUtf8String => 1,
            Status::ParsingFailed => 6,
        }
    }
}

/// Distinct statuses are reported as distinct integer codes, so a C caller
/// can always recover the status from the code alone.
pub proof fn lemma_status_codes_distinct(a: Status, b: Status)
    ensures
        status_code(a) == status_code(b) ==> a == b,
{
}

} // verus!
