//! Status codes observable by the guest program.
//!
//! Every host call returns one of these codes as data; a status never
//! unwinds the host.  The guest receives the code as a 32-bit integer, so
//! the enum comes with a fixed integer encoding.

use vstd::prelude::*;

verus! {

/// The outcome of a single host call, as seen by the guest.
///
/// These are guest-recoverable: the guest branches on the returned code.
/// Host-side invariant violations are kept apart in `FatalHostError`.
#[derive(Clone, Copy, PartialEq, Eq, Structural, Debug)]
pub enum VeracruzError {
    /// The call did what was asked.
    Success,
    /// An argument was invalid: an index out of range, or an address/size
    /// pair that does not lie inside the guest's linear memory.
    BadInput,
    /// The caller's buffer is too small for the requested data source.
    DataSourceSize,
    /// The platform's randomness source could not produce bytes.
    ServiceUnavailable,
    /// A result has already been written; the stored result is untouched.
    ResultAlreadyWritten,
    /// Any other failure.
    Generic,
}

impl VeracruzError {
    /// The fixed integer encoding handed back over the guest ABI.
    pub open spec fn spec_code(self) -> i32 {
        match self {
            VeracruzError::Success => 0,
            VeracruzError::BadInput => 1,
            VeracruzError::DataSourceSize => 2,
            VeracruzError::ServiceUnavailable => 3,
            VeracruzError::ResultAlreadyWritten => 4,
            VeracruzError::Generic => 5,
        }
    }

    /// Returns the status as the 32-bit integer the guest sees.
    pub fn code(&self) -> (r: i32)
        ensures
            r == self.spec_code(),
    {
        match self {
            VeracruzError::Success => 0,
            VeracruzError::BadInput => 1,
            VeracruzError::DataSourceSize => 2,
            VeracruzError::ServiceUnavailable => 3,
            VeracruzError::ResultAlreadyWritten => 4,
            VeracruzError::Generic => 5,
        }
    }

    /// Recovers a status from its integer encoding.
    pub fn from_code(code: i32) -> (r: Option<VeracruzError>)
        ensures
            r matches Some(s) ==> s.spec_code() == code,
            r is None <==> !(0 <= code <= 5),
    {
        match code {
            0 => Some(VeracruzError::Success),
            1 => Some(VeracruzError::BadInput),
            2 => Some(VeracruzError::DataSourceSize),
            3 => Some(VeracruzError::ServiceUnavailable),
            4 => Some(VeracruzError::ResultAlreadyWritten),
            5 => Some(VeracruzError::Generic),
            _ => None,
        }
    }
}

} // verus!
