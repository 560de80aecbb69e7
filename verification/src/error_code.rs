//! Numeric codes and texts of the response envelope.

use vstd::prelude::*;

verus! {

/// Outcome class carried by every response envelope.
#[derive(Debug, Clone, Copy, PartialEq, Eq, Structural)]
pub enum ErrorCode {
    NoError,
    GetDataFailed,
    NoSuchInterface,
    UnknownError,
}

impl ErrorCode {
    /// The number that stands for this code on the wire.
    pub open spec fn code_value(self) -> int {
        match self {
            ErrorCode::NoError => 0,
            ErrorCode::GetDataFailed => 10000,
            ErrorCode::NoSuchInterface => 10001,
            ErrorCode::UnknownError => 99999,
        }
    }

    /// The default text that explains this code.
    pub open spec fn message_text(self) -> Seq<char> {
        match self {
            ErrorCode::NoError => "No error"@,
            ErrorCode::GetDataFailed => "Get data failed"@,
            ErrorCode::NoSuchInterface => "No such interface"@,
            ErrorCode::UnknownError => "Unknown error"@,
        }
    }

    pub fn code(&self) -> (value: i32)
        ensures
            value == self.code_value(),
    {
        match self {
            ErrorCode::NoError => 0,
            ErrorCode::GetDataFailed => 10000,
            ErrorCode::NoSuchInterface => 10001,
            ErrorCode::UnknownError => 99999,
        }
    }

    pub fn message(&self) -> (text: &'static str)
        ensures
            text@ == self.message_text(),
    {
        match self {
            ErrorCode::NoError => "No error",
            ErrorCode::GetDataFailed => "Get data failed",
            ErrorCode::NoSuchInterface => "No such interface",
            ErrorCode::UnknownError => "Unknown error",
        }
    }
}

} // verus!
