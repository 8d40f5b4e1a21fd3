//! The failures a request can report.

use vstd::prelude::*;
use vstd::string::StringExecFns;

use crate::digits::spec_dec_digits;
use crate::digits::usize_to_string;

verus! {

/// Why a request could not be built or completed.
///
/// Every failure is returned to the caller; nothing is retried or logged
/// here.
#[derive(Debug)]
pub enum ApiError {
    /// An identity field needed to build the endpoint path is absent on the
    /// entity; detected before any network call. Carries the field's name.
    MissingField(String),
    /// A response carried a non-success HTTP status; a paged fetch aborts
    /// the whole sequence and surfaces no partial results.
    HttpStatus(u16),
    /// A response value could not be parsed into the expected type.
    ParseFailed,
}

impl ApiError {
    /// A short description of the failure.
    pub fn message(&self) -> (r: String)
        ensures
            match self {
                ApiError::MissingField(f) => r@ == "Field `"@ + f@ + "` missing"@,
                ApiError::HttpStatus(s) => r@ == spec_dec_digits(*s as nat),
                ApiError::ParseFailed => r@ == "Failed to parse output"@,
            },
    {
        match self {
            ApiError::MissingField(f) => {
                let mut s = String::from_str("Field `");
                s.append(f.as_str());
                s.append("` missing");
                s
            },
            ApiError::HttpStatus(status) => usize_to_string(*status as usize),
            ApiError::ParseFailed => String::from_str("Failed to parse output"),
        }
    }
}

} // verus!
