//! The failure that a read from the pasteboard service can end in.

use vstd::prelude::*;
use vstd::string::StringExecFns;

verus! {

/// Code of the error for a read that the service answered with no data at
/// all.
pub const NO_DATA_CODE: usize = 666;

/// A fault reported by the pasteboard service.
#[derive(Debug, Clone, PartialEq, Eq)]
pub struct Error {
    /// Numeric code of the fault.
    pub code: usize,
    /// Domain that the code belongs to.
    pub domain: String,
    /// Account of the fault for a human reader.
    pub description: String,
}

/// An [`Error`] as plain values.
pub struct ErrorView {
    pub code: usize,
    pub domain: Seq<char>,
    pub description: Seq<char>,
}

impl View for Error {
    type V = ErrorView;

    open spec fn view(&self) -> ErrorView {
        ErrorView { code: self.code, domain: self.domain@, description: self.description@ }
    }
}

/// The error for a read that the service answered with no data at all.
pub open spec fn spec_no_data() -> ErrorView {
    ErrorView {
        code: NO_DATA_CODE,
        domain: "com.cacao-rs.pasteboard"@,
        description: "Pasteboard server returned no data."@,
    }
}

impl Error {
    /// The error for a read that the service answered with no data at all.
    pub fn no_data() -> (error: Error)
        ensures
            error@ == spec_no_data(),
    {
        Error {
            code: NO_DATA_CODE,
            domain: String::from_str("com.cacao-rs.pasteboard"),
            description: String::from_str("Pasteboard server returned no data."),
        }
    }
}

} // verus!
