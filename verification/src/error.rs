//! The closed set of failures that any client operation can produce.

use vstd::prelude::*;
use vstd::string::StringExecFns;
use crate::text::{dec_str, dec_string, starts_with};

verus! {

/// MKS error return type.
///
/// Every fallible operation of the library returns one of these kinds, never
/// an untyped failure.
#[derive(Debug)]
pub enum MKSError {
    /// Failed to deserialize response body. Carries a description of the
    /// failure and the raw body text, unchanged, for diagnostics.
    DeserializeError(String, String),
    /// Failed to serialize a struct into request body.
    SerializeError(String),
    /// Bad endpoint value.
    EndpointError,
    /// Empty token value.
    EmptyTokenError,
    /// HTTP response contains bad status code. Carries the status code and
    /// the raw body text, unchanged.
    HttpError(u16, String),
    /// Failed to perform the HTTP request; carries the underlying cause.
    HyperError(hyper::Error),
    /// Error while building a new request.
    RequestError,
    /// Request timed out.
    TimeoutError,
    /// Bad URL for a new request.
    UrlError,
}

impl MKSError {
    /// A human-readable description of the failure.
    pub fn message(&self) -> (r: String)
        ensures
            match self {
                MKSError::DeserializeError(cause, body) => r@ == "failed to deserialize body: "@
                    + cause@ + ", error: "@ + body@,
                MKSError::SerializeError(cause) => r@ == "failed to serialize a struct, error: "@
                    + cause@,
                MKSError::EndpointError => r@ == "failed to parse base endpoint URL"@,
                MKSError::EmptyTokenError => r@ == "token cannot be empty"@,
                MKSError::HttpError(status, body) => r@ == "bad status code: "@ + dec_str(
                    *status as int,
                ) + ", error body: "@ + body@,
                MKSError::HyperError(_) => starts_with(
                    r@,
                    "failed to make the request due to Hyper error: "@,
                ),
                MKSError::RequestError => r@ == "failed to build a new request"@,
                MKSError::TimeoutError => r@ == "request timed out"@,
                MKSError::UrlError => r@ == "failed to parse URL for request"@,
            },
    {
        match self {
            MKSError::DeserializeError(cause, body) => String::from_str(
                "failed to deserialize body: ",
            ).concat(cause.as_str()).concat(", error: ").concat(body.as_str()),
            MKSError::SerializeError(cause) => String::from_str(
                "failed to serialize a struct, error: ",
            ).concat(cause.as_str()),
            MKSError::EndpointError => String::from_str("failed to parse base endpoint URL"),
            MKSError::EmptyTokenError => String::from_str("token cannot be empty"),
            MKSError::HttpError(status, body) => {
                let rendered = dec_string(*status as u64);
                String::from_str("bad status code: ").concat(rendered.as_str()).concat(
                    ", error body: ",
                ).concat(body.as_str())
            },
            MKSError::HyperError(cause) => {
                let prefix = String::from_str("failed to make the request due to Hyper error: ");
                let ghost pre = prefix@;
                let text = prefix.concat(hyper_error_text(cause).as_str());
                proof {
                    assert(text@.subrange(0, pre.len() as int) =~= pre);
                }
                text
            },
            MKSError::RequestError => String::from_str("failed to build a new request"),
            MKSError::TimeoutError => String::from_str("request timed out"),
            MKSError::UrlError => String::from_str("failed to parse URL for request"),
        }
    }
}

impl From<hyper::Error> for MKSError {
    fn from(e: hyper::Error) -> (r: Self) {
        MKSError::HyperError(e)
    }
}

impl vstd::std_specs::convert::FromSpecImpl<hyper::Error> for MKSError {
    open spec fn obeys_from_spec() -> bool {
        true
    }

    open spec fn from_spec(e: hyper::Error) -> Self {
        MKSError::HyperError(e)
    }
}

/// Relies on the `Display` rendering of `hyper::Error` through
/// `ToString::to_string`; nothing is assumed of the text.
#[verifier::external_body]
fn hyper_error_text(e: &hyper::Error) -> (r: String) {
    e.to_string()
}

} // verus!
