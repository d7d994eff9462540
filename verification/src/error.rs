//! The error type that the message handlers report.
use vstd::prelude::*;

verus! {

/// What went wrong.
#[derive(Clone, Copy, Debug, PartialEq, Eq, Structural)]
pub enum ErrorCode {
    /// A cryptographic operation could not be carried out.
    Crypto,
    /// A value is not acceptable where it stands.
    Invalid,
    /// A command does not fit the state of the node.
    InvalidAction,
    /// A received value does not have the expected form.
    InvalidData,
    /// An opcode or status number is not known, or not expected.
    InvalidOpcode,
    /// A message belongs to another protocol.
    InvalidProto,
    /// The exchange is gone.
    NoExchange,
    /// A buffer has no room for the value to be written.
    NoSpace,
    /// A buffer ends before the value to be read does.
    TruncatedPacket,
}

/// An error, identified by its code.
#[derive(Clone, Copy, Debug, PartialEq, Eq, Structural)]
pub struct Error {
    pub code: ErrorCode,
}

impl Error {
    /// An error with the given code.
    pub fn new(code: ErrorCode) -> (error: Self)
        ensures
            error == (Error { code }),
    {
        Error { code }
    }

    /// The code of the error.
    pub fn code(&self) -> (code: ErrorCode)
        ensures
            code == self.code,
    {
        self.code
    }
}

impl From<ErrorCode> for Error {
    fn from(code: ErrorCode) -> (error: Self) {
        Error { code }
    }
}

impl vstd::std_specs::convert::FromSpecImpl<ErrorCode> for Error {
    open spec fn obeys_from_spec() -> bool {
        true
    }

    open spec fn from_spec(code: ErrorCode) -> Self {
        Error { code }
    }
}

} // verus!
