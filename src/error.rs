//! Failure codes of CoAP encoding.

use vstd::prelude::*;

verus! {

/// Error codes for CoAP encoding failure.
#[allow(non_camel_case_types)]
#[derive(Clone, Copy, Debug, PartialEq, Eq, Structural)]
pub enum CoapError {
    /// No error.
    OK,
    /// The encoded value is not an unsigned integer.
    VALUE_NOT_UINT,
}

impl CoapError {
    /// The numeric code of the error.
    pub open spec fn spec_code(self) -> u32 {
        match self {
            CoapError::OK => 0,
            CoapError::VALUE_NOT_UINT => 1,
        }
    }

    /// Returns the numeric code of the error: 0 for success.
    pub fn code(&self) -> (r: u32)
        ensures
            r == self.spec_code(),
    {
        match self {
            CoapError::OK => 0,
            CoapError::VALUE_NOT_UINT => 1,
        }
    }
}

} // verus!
