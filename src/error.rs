//! The error object of the protocol.
use vstd::prelude::*;
use crate::text::{int_text, integer_text};

verus! {

/// Error object returned in response to a failed call.
#[derive(Debug, Clone)]
pub struct Error {
    /// Error code indicating the error type.
    pub code: i32,
    /// Short error description.
    pub message: String,
    /// Additional information about the error, as JSON text.
    pub data: Option<String>,
}

pub open spec fn invalid_args_len_message(n: nat) -> Seq<char> {
    "This method takes an array of "@ + int_text(n as int) + " arguments"@
}

impl Error {
    pub const PARSE_ERROR: i32 = -32700;
    pub const INVALID_REQUEST: i32 = -32600;
    pub const METHOD_NOT_FOUND: i32 = -32601;
    pub const INVALID_PARAMS: i32 = -32602;
    pub const INTERNAL_ERROR: i32 = -32603;

    pub const BAD_REQUEST: i32 = -32000;
    pub const BAD_RESPONSE: i32 = -32001;
    pub const REMOTE_DISCONNECTED: i32 = -32002;

    /// Creates a new error object.
    pub fn new(code: i32, message: String) -> (r: Self)
        ensures
            r.code == code,
            r.message@ == message@,
            r.data is None,
    {
        Error { code, message, data: None }
    }

    /// Creates a new error object with additional information.
    pub fn with_data(code: i32, message: String, data: Option<String>) -> (r: Self)
        ensures
            r.code == code,
            r.message@ == message@,
            r.data == data,
    {
        Error { code, message, data }
    }

    /// Creates a new error object indicating invalid method parameters.
    pub fn invalid_params() -> (r: Self)
        ensures
            r.code == Error::INVALID_PARAMS,
            r.message@ == "Params has to be an object or array"@,
            r.data is None,
    {
        Error::new(Error::INVALID_PARAMS, String::from_str("Params has to be an object or array"))
    }

    /// Creates a new error object indicating that the method does not exist.
    pub fn method_not_found() -> (r: Self)
        ensures
            r.code == Error::METHOD_NOT_FOUND,
            r.message@ == "Method not found"@,
            r.data is None,
    {
        Error::new(Error::METHOD_NOT_FOUND, String::from_str("Method not found"))
    }

    /// Creates a new error object indicating that a method takes `n` positional arguments.
    pub fn invalid_args_len(n: usize) -> (r: Self)
        ensures
            r.code == Error::INVALID_PARAMS,
            r.message@ == invalid_args_len_message(n as nat),
            r.data is None,
    {
        let mut message = String::from_str("This method takes an array of ");
        let count = integer_text(n as i128);
        message.append(count.as_str());
        message.append(" arguments");
        Error::new(Error::INVALID_PARAMS, message)
    }

    /// Creates a new error object indicating a malformed or contradictory response.
    pub fn bad_response() -> (r: Self)
        ensures
            r.code == Error::BAD_RESPONSE,
            r.message@ == "Error while processing a response"@,
            r.data is None,
    {
        Error::new(Error::BAD_RESPONSE, String::from_str("Error while processing a response"))
    }

    /// Creates a new error object indicating that a request could not be serialized.
    pub fn bad_request() -> (r: Self)
        ensures
            r.code == Error::BAD_REQUEST,
            r.message@ == "Error while serializing a request"@,
            r.data is None,
    {
        Error::new(Error::BAD_REQUEST, String::from_str("Error while serializing a request"))
    }

    /// Creates a new error object indicating that the outbound queue is closed.
    pub fn remote_disconnected() -> (r: Self)
        ensures
            r.code == Error::REMOTE_DISCONNECTED,
            r.message@ == "Remote disconnected"@,
            r.data is None,
    {
        Error::new(Error::REMOTE_DISCONNECTED, String::from_str("Remote disconnected"))
    }

    /// Whether this error reports that the outbound queue is closed.
    pub fn is_disconnnected(&self) -> (r: bool)
        ensures
            r == (self.code == Error::REMOTE_DISCONNECTED),
    {
        self.code == Error::REMOTE_DISCONNECTED
    }
}

} // verus!
