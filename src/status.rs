use vstd::prelude::*;
use crate::text::{decimal_string, decimal_text};

verus! {

/// Highest status code that still counts as success. It includes a
/// redirect code on purpose.
pub const LAST_SUCCESS_STATUS: u16 = 300;

/// A response with this status carries the requested value.
pub open spec fn is_success_status(status: u16) -> bool {
    status <= LAST_SUCCESS_STATUS
}

/// Whether a response with `status` is a success.
pub fn is_success(status: u16) -> (r: bool)
    ensures
        r == is_success_status(status),
{
    status <= LAST_SUCCESS_STATUS
}

/// The body of a failed response: a status object.
#[derive(Debug)]
pub struct Error {
    pub status: ErrorStatus,
}

/// The error the provider reports: its code and message.
#[derive(Debug, Clone)]
pub struct ErrorStatus {
    /// The message.
    pub source: String,
    pub status_code: i32,
}

/// `Status: {code}, Message: '{message}'`.
pub open spec fn error_text(status_code: int, message: Seq<char>) -> Seq<char> {
    "Status: "@ + decimal_text(status_code) + ", Message: '"@ + message + "'"@
}

impl ErrorStatus {
    pub fn new(status_code: i32, message: String) -> (r: ErrorStatus)
        ensures
            r.status_code == status_code,
            r.source@ == message@,
    {
        ErrorStatus { source: message, status_code }
    }

    /// The report of the error, as `Status: {code}, Message: '{message}'`.
    pub fn to_string(&self) -> (r: String)
        ensures
            r@ == error_text(self.status_code as int, self.source@),
    {
        let mut s = String::from_str("Status: ");
        s.append(decimal_string(self.status_code as i64).as_str());
        s.append(", Message: '");
        s.append(self.source.as_str());
        s.append("'");
        s
    }
}

impl Error {
    /// The reported error inside a failure body.
    pub fn into_status(self) -> (r: ErrorStatus)
        ensures
            r.status_code == self.status.status_code,
            r.source@ == self.status.source@,
    {
        self.status
    }
}

/// A response that does not fit the protocol.
#[derive(Clone, Copy, Debug, PartialEq, Eq, Structural)]
pub enum ProtocolError {
    /// A quota header that does not parse.
    MalformedQuota,
    /// A success body that does not decode into the requested value.
    MalformedBody,
}

/// Construction input that cannot be used.
#[derive(Clone, Copy, Debug, PartialEq, Eq, Structural)]
pub enum ConfigurationError {
    /// The API key cannot stand in a request header.
    InvalidApiKey,
}

} // verus!
