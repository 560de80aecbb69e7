//! The envelope every answer is wrapped in.

use vstd::prelude::*;
use vstd::string::*;
use crate::error_code::ErrorCode;

verus! {

/// An answer: how it went, a code, and a text or a payload where there is one.
#[derive(Debug)]
pub struct JsendResponse<T> {
    pub status: String,
    pub code: ErrorCode,
    pub message: Option<String>,
    pub data: Option<T>,
}

/// The text of an optional string.
pub open spec fn text_of(message: Option<String>) -> Option<Seq<char>> {
    match message {
        Some(text) => Some(text@),
        None => None,
    }
}

impl<T> JsendResponse<T> {
    /// Whether this envelope has the given parts.
    pub open spec fn holds(
        &self,
        status: Seq<char>,
        code: ErrorCode,
        message: Option<Seq<char>>,
        data: Option<T>,
    ) -> bool {
        &&& self.status@ == status
        &&& self.code == code
        &&& text_of(self.message) == message
        &&& self.data == data
    }

    pub fn success() -> (response: Self)
        ensures
            response.holds("success"@, ErrorCode::NoError, None, None),
    {
        Self {
            status: String::from_str("success"),
            code: ErrorCode::NoError,
            message: None,
            data: None,
        }
    }

    pub fn success_with_data(data: T) -> (response: Self)
        ensures
            response.holds("success"@, ErrorCode::NoError, None, Some(data)),
    {
        Self {
            status: String::from_str("success"),
            code: ErrorCode::NoError,
            message: None,
            data: Some(data),
        }
    }

    pub fn success_with_data_and_code(data: T, code: ErrorCode) -> (response: Self)
        ensures
            response.holds("success"@, code, None, Some(data)),
    {
        Self { status: String::from_str("success"), code, message: None, data: Some(data) }
    }

    pub fn fail(code: ErrorCode) -> (response: Self)
        ensures
            response.holds("fail"@, code, Some(code.message_text()), None),
    {
        Self {
            status: String::from_str("fail"),
            message: Some(String::from_str(code.message())),
            code,
            data: None,
        }
    }

    pub fn fail_with_message(message: String, code: ErrorCode) -> (response: Self)
        ensures
            response.holds("fail"@, code, Some(message@), None),
    {
        Self { status: String::from_str("fail"), message: Some(message), code, data: None }
    }

    pub fn fail_with_message_data(message: String, data: T, code: ErrorCode) -> (response: Self)
        ensures
            response.holds("fail"@, code, Some(message@), Some(data)),
    {
        Self { status: String::from_str("fail"), message: Some(message), code, data: Some(data) }
    }

    pub fn error(code: ErrorCode) -> (response: Self)
        ensures
            response.holds("error"@, code, Some(code.message_text()), None),
    {
        Self {
            status: String::from_str("error"),
            message: Some(String::from_str(code.message())),
            code,
            data: None,
        }
    }

    pub fn error_with_message(message: String, code: ErrorCode) -> (response: Self)
        ensures
            response.holds("error"@, code, Some(message@), None),
    {
        Self { status: String::from_str("error"), message: Some(message), code, data: None }
    }

    pub fn error_with_message_data(message: String, data: T, code: ErrorCode) -> (response: Self)
        ensures
            response.holds("error"@, code, Some(message@), Some(data)),
    {
        Self { status: String::from_str("error"), message: Some(message), code, data: Some(data) }
    }
}

} // verus!
