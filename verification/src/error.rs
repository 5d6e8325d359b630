//! The reasons for which an entry point refuses a call.

use vstd::prelude::*;

verus! {

/// Why an invocation was aborted. An aborted invocation changes nothing.
#[derive(Copy, Clone, Debug, PartialEq, Eq, Structural)]
pub enum Error {
    /// The contract has already been initialized.
    AlreadyInitialized,
    /// The contract has not been initialized yet.
    NotInitialized,
    /// The address whose approval the operation needs has not given it.
    NotAuthorized,
    /// The sender holds less than the amount to transfer.
    InsufficientBalance,
    /// An amount or score that must be positive is not.
    InvalidAmount,
    /// No record exists under the given id.
    NotFound,
    /// A balance, total or counter would leave the range of its type.
    Overflow,
}

impl Error {
    /// The number under which the error is reported.
    pub open spec fn spec_code(self) -> u32 {
        match self {
            Error::AlreadyInitialized => 1,
            Error::NotInitialized => 2,
            Error::NotAuthorized => 3,
            Error::InsufficientBalance => 4,
            Error::InvalidAmount => 5,
            Error::NotFound => 6,
            Error::Overflow => 7,
        }
    }

    /// The number under which the error is reported.
    pub fn code(self) -> (r: u32)
        ensures
            r == self.spec_code(),
    {
        match self {
            Error::AlreadyInitialized => 1,
            Error::NotInitialized => 2,
            Error::NotAuthorized => 3,
            Error::InsufficientBalance => 4,
            Error::InvalidAmount => 5,
            Error::NotFound => 6,
            Error::Overflow => 7,
        }
    }
}

} // verus!
