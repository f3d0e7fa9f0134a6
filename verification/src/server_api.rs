//! The server's API: its error type and the status request and response.

use vstd::prelude::*;
use vstd::std_specs::convert::FromSpecImpl;
use crate::shared::{
    RequestId, Timestamp, TypeError, caused_by_lines, is_clock_time, is_generated_uuid_text, is_read_from_clock, error_root_cause,
    is_hyphenated_v4_uuid,
};


verus! {

/// API wrapper for error types.
#[derive(Debug, Clone, PartialEq, Eq)]
#[non_exhaustive]
pub enum ApiError {
    /// Wrap a TypeError
    TypeError(TypeError),
    /// Error due to a bad request argument
    BadRequestError(String),
    /// Error due to IO problem
    InputOutputError(String),
    /// Error due to resource timeout
    ResourceTimeoutError(String),
    /// Error due to bad security configuration
    InsecureConfigurationError(String),
}

impl ApiError {
    /// The text the error is displayed as: the wrapped type error's text, or
    /// the message itself.
    pub open spec fn display_text(self) -> Seq<char> {
        match self {
            ApiError::TypeError(e) => e.display_text(),
            ApiError::BadRequestError(m) => m@,
            ApiError::InputOutputError(m) => m@,
            ApiError::ResourceTimeoutError(m) => m@,
            ApiError::InsecureConfigurationError(m) => m@,
        }
    }

    /// The HTTP status of the response that reports the error.
    pub open spec fn spec_status_code(self) -> u16 {
        match self {
            ApiError::TypeError(e) => e.spec_status_code(),
            ApiError::BadRequestError(_) => 400,
            _ => 500,
        }
    }

    /// The text the error is displayed as.
    pub fn to_string(&self) -> (s: String)
        ensures
            s@ == self.display_text(),
    {
        match self {
            ApiError::TypeError(e) => e.to_string(),
            ApiError::BadRequestError(m) => m.clone(),
            ApiError::InputOutputError(m) => m.clone(),
            ApiError::ResourceTimeoutError(m) => m.clone(),
            ApiError::InsecureConfigurationError(m) => m.clone(),
        }
    }

    /// The status and body of the server response that reports the error: a
    /// wrapped type error answers as that error does, a bad request with 400,
    /// anything else with 500; the body is the displayed text.
    pub fn response_parts(&self) -> (parts: (u16, String))
        ensures
            parts.0 == self.spec_status_code(),
            parts.1@ == self.display_text(),
    {
        match self {
            ApiError::TypeError(e) => e.response_parts(),
            ApiError::BadRequestError(_) => (400, self.to_string()),
            _ => (500, self.to_string()),
        }
    }

    /// The message that a variant other than a wrapped type error carries.
    pub open spec fn own_message(self) -> Seq<char> {
        match self {
            ApiError::TypeError(e) => e.message_of(),
            ApiError::BadRequestError(m) => m@,
            ApiError::InputOutputError(m) => m@,
            ApiError::ResourceTimeoutError(m) => m@,
            ApiError::InsecureConfigurationError(m) => m@,
        }
    }

    /// The error for a failed read or write: its message is the failure's.
    pub fn from_io_error_text(text: &str) -> (e: ApiError)
        ensures
            e is InputOutputError,
            e.own_message() == text@,
    {
        ApiError::InputOutputError(String::from_str(text))
    }

    /// The error for a bad request argument (an unparsable URL, a failed
    /// HTTP client call): its message is the cause's message followed by
    /// those of the errors that caused it.
    pub fn bad_request_from_error(message: &str, source_messages: &[String]) -> (e: ApiError)
        ensures
            e is BadRequestError,
            e.own_message() == message@ + caused_by_lines(source_messages@.map_values(|m: String| m@)),
    {
        ApiError::BadRequestError(error_root_cause(message, source_messages))
    }

    /// The error for a bad security configuration (a certificate that could
    /// not be generated): its message is the cause's message followed by
    /// those of the errors that caused it.
    pub fn insecure_configuration_from_error(message: &str, source_messages: &[String]) -> (e: ApiError)
        ensures
            e is InsecureConfigurationError,
            e.own_message() == message@ + caused_by_lines(source_messages@.map_values(|m: String| m@)),
    {
        ApiError::InsecureConfigurationError(error_root_cause(message, source_messages))
    }
}

impl From<TypeError> for ApiError {
    fn from(error: TypeError) -> (e: ApiError) {
        ApiError::TypeError(error)
    }
}

impl FromSpecImpl<TypeError> for ApiError {
    open spec fn obeys_from_spec() -> bool {
        true
    }

    open spec fn from_spec(error: TypeError) -> ApiError {
        ApiError::TypeError(error)
    }
}

/// *** Server Status ***
/// The path of the simple "web service is alive" request.
pub const STATUS_PATH: &'static str = "/api/v1/status";

/// A request for the server's status.
#[derive(Debug, Clone, PartialEq, Eq)]
pub struct StatusRequest {
    pub request_id: RequestId,
    pub timestamp: Timestamp,
}

/// The server's answer to a status request: the request and when it was answered.
#[derive(Debug, Clone, PartialEq, Eq)]
pub struct StatusResponse {
    pub request: StatusRequest,
    pub timestamp: Timestamp,
}

impl Default for StatusRequest {
    /// A request with a fresh identifier, made now.
    fn default() -> (r: Self)
        ensures
            is_hyphenated_v4_uuid(r.request_id@),
            is_generated_uuid_text(r.request_id@),
            is_clock_time(r.timestamp),
            is_read_from_clock(r.timestamp),
    {
        StatusRequest { request_id: RequestId::default(), timestamp: Timestamp::default() }
    }
}

impl Default for StatusResponse {
    /// A response to a default request, made now.
    fn default() -> (r: Self)
        ensures
            is_hyphenated_v4_uuid(r.request.request_id@),
            is_generated_uuid_text(r.request.request_id@),
            is_clock_time(r.timestamp),
            is_read_from_clock(r.request.timestamp),
            is_read_from_clock(r.timestamp),
    {
        StatusResponse { request: StatusRequest::default(), timestamp: Timestamp::default() }
    }
}

/// An API error that wraps a type error is answered and displayed as the
/// type error itself is.
pub proof fn law_wrapped_type_error_answers_alike(e: TypeError)
    ensures
        ApiError::TypeError(e).spec_status_code() == e.spec_status_code(),
        ApiError::TypeError(e).display_text() == e.display_text(),
{
}

} // verus!
