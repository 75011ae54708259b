use vstd::prelude::*;

use crate::transport::{failure_status, reqwest_description, reqwest_status};

verus! {

/// Set of possible errors returned by the client.
#[derive(Debug)]
pub enum Error {
    /// The server rejected the request (this includes exhausted retries).
    Client {
        /// A message describing the error
        message: String,
        /// HTTP status code associated
        status: u32,
        /// Server's API version if available
        api_version: Option<String>,
        /// Server's response details if available
        api_response: Option<String>,
    },
    /// A failed communication with the server that produced no HTTP response.
    TransportError(String),
    /// An invalid HTTP header name or value, or certificate, was provided.
    InvalidHeader,
    /// The server's response was truncated, corrupted, or malformed.
    MalformedResponse,
    /// A string could not be converted into a sha256.
    InvalidSha256,
}

impl Error {
    /// Whether `self` is a client error with exactly this message and status
    /// and no server details.
    pub open spec fn is_client_error(&self, message: Seq<char>, status: u32) -> bool {
        match self {
            Error::Client { message: m, status: s, api_version, api_response } =>
                m@ == message && *s == status && api_version.is_none() && api_response.is_none(),
            _ => false,
        }
    }

    /// A client error without server details.
    pub fn client_error(message: String, status: u32) -> (r: Self)
        ensures
            r.is_client_error(message@, status),
    {
        Error::Client { message, status, api_response: None, api_version: None }
    }

    /// The error for a failed exchange, from the HTTP status it carries (if
    /// any) and its description: a client error with that status, otherwise
    /// a transport error.
    pub fn from_failure(status: Option<u16>, description: String) -> (r: Self)
        ensures
            match status {
                Some(code) => r.is_client_error(description@, code as u32),
                None => r == Error::TransportError(description),
            },
    {
        match status {
            Some(code) => Error::client_error(description, code as u32),
            None => Error::TransportError(description),
        }
    }

    /// The error for a failure that reqwest reported: a client error with
    /// the failure's HTTP status when it carries one, otherwise a transport
    /// error; either way the message is reqwest's description of the failure.
    pub fn from_reqwest(value: reqwest::Error) -> (r: Self)
        ensures
            failure_status(value) matches Some(code) ==> r matches Error::Client {
                status,
                api_version,
                api_response,
                ..
            } && status == code as u32 && api_version is None && api_response is None,
            failure_status(value) is None ==> r is TransportError,
    {
        let status = reqwest_status(&value);
        let description = reqwest_description(&value);
        Error::from_failure(status, description)
    }
}

} // verus!
