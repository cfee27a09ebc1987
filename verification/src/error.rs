//! The error type shared by every operation of the SDK.

use vstd::prelude::*;
use vstd::string::*;

verus! {

/// `serde_json::Error`, carried through as an opaque value.
#[verifier::external_type_specification]
#[verifier::external_body]
pub struct ExSerdeJsonError(serde_json::Error);

/// `reqwest::Error`, carried through as an opaque value.
#[verifier::external_type_specification]
#[verifier::external_body]
pub struct ExReqwestError(reqwest::Error);

/// `std::io::Error`, carried through as an opaque value.
#[verifier::external_type_specification]
#[verifier::external_body]
pub struct ExIoError(std::io::Error);

/// Error type for Hermes SDK operations.
#[derive(Debug)]
pub enum HermesError {
    /// A credential was rejected, or a token could not be obtained.
    Authentication(String),
    /// A marketplace API call failed.
    ApiRequest(String),
    /// The marketplace throttled the caller.
    RateLimit(String),
    /// The configuration cannot be used as given.
    Configuration(String),
    /// A value could not be encoded or decoded.
    Serialization(serde_json::Error),
    /// The HTTP client reported a failure.
    Http(reqwest::Error),
    /// The operating system reported an I/O failure.
    Io(std::io::Error),
    /// Any other failure.
    Unknown(String),
}

/// Result type for Hermes SDK operations.
pub type HermesResult<T> = Result<T, HermesError>;

/// Renders a `serde_json::Error` through its `Display` impl. Nothing is
/// claimed of the text: it depends on what the decoder met.
#[verifier::external_body]
fn serialization_text(err: &serde_json::Error) -> (text: String) {
    err.to_string()
}

/// Renders a `reqwest::Error` through its `Display` impl. Nothing is claimed
/// of the text.
#[verifier::external_body]
fn http_text(err: &reqwest::Error) -> (text: String) {
    err.to_string()
}

/// Renders a `std::io::Error` through its `Display` impl. Nothing is claimed
/// of the text.
#[verifier::external_body]
fn io_text(err: &std::io::Error) -> (text: String) {
    err.to_string()
}

impl HermesError {
    /// The fixed words that open the message of each kind of error.
    pub open spec fn prefix(&self) -> Seq<char> {
        match self {
            HermesError::Authentication(_) => "Authentication failed: "@,
            HermesError::ApiRequest(_) => "API request failed: "@,
            HermesError::RateLimit(_) => "Rate limit exceeded: "@,
            HermesError::Configuration(_) => "Invalid configuration: "@,
            HermesError::Serialization(_) => "Serialization error: "@,
            HermesError::Http(_) => "HTTP request error: "@,
            HermesError::Io(_) => "IO error: "@,
            HermesError::Unknown(_) => "Unknown error: "@,
        }
    }

    /// The detail a kind carries as text; `None` where it wraps another
    /// library's error, whose wording is that library's.
    pub open spec fn detail(&self) -> Option<Seq<char>> {
        match self {
            HermesError::Authentication(d) => Some(d@),
            HermesError::ApiRequest(d) => Some(d@),
            HermesError::RateLimit(d) => Some(d@),
            HermesError::Configuration(d) => Some(d@),
            HermesError::Unknown(d) => Some(d@),
            _ => None,
        }
    }

    /// The error for a marketplace call that failed: an `ApiRequest` whose
    /// detail names the operation and then gives the cause.
    pub fn api_failure(operation: &str, cause: &str) -> (err: Self)
        ensures
            err matches HermesError::ApiRequest(detail) && detail@ == "eBay "@ + operation@
                + " failed: "@ + cause@,
    {
        let mut detail = String::from_str("eBay ");
        detail.append(operation);
        detail.append(" failed: ");
        detail.append(cause);
        HermesError::ApiRequest(detail)
    }

    /// The human-readable message: the kind's prefix followed by the detail.
    pub fn message(&self) -> (text: String)
        ensures
            self.prefix().is_prefix_of(text@),
            self.detail() matches Some(d) ==> text@ == self.prefix() + d,
    {
        match self {
            HermesError::Authentication(d) => join("Authentication failed: ", d.as_str()),
            HermesError::ApiRequest(d) => join("API request failed: ", d.as_str()),
            HermesError::RateLimit(d) => join("Rate limit exceeded: ", d.as_str()),
            HermesError::Configuration(d) => join("Invalid configuration: ", d.as_str()),
            HermesError::Serialization(e) => {
                let inner = serialization_text(e);
                join("Serialization error: ", inner.as_str())
            },
            HermesError::Http(e) => {
                let inner = http_text(e);
                join("HTTP request error: ", inner.as_str())
            },
            HermesError::Io(e) => {
                let inner = io_text(e);
                join("IO error: ", inner.as_str())
            },
            HermesError::Unknown(d) => join("Unknown error: ", d.as_str()),
        }
    }
}

/// Concatenates two pieces of text.
fn join(head: &str, tail: &str) -> (text: String)
    ensures
        text@ == head@ + tail@,
{
    let mut text = String::from_str(head);
    text.append(tail);
    text
}

impl From<serde_json::Error> for HermesError {
    fn from(err: serde_json::Error) -> (e: Self)
        ensures
            e == HermesError::Serialization(err),
    {
        HermesError::Serialization(err)
    }
}

impl vstd::std_specs::convert::FromSpecImpl<serde_json::Error> for HermesError {
    open spec fn obeys_from_spec() -> bool {
        true
    }

    open spec fn from_spec(err: serde_json::Error) -> Self {
        HermesError::Serialization(err)
    }
}

impl From<reqwest::Error> for HermesError {
    fn from(err: reqwest::Error) -> (e: Self)
        ensures
            e == HermesError::Http(err),
    {
        HermesError::Http(err)
    }
}

impl vstd::std_specs::convert::FromSpecImpl<reqwest::Error> for HermesError {
    open spec fn obeys_from_spec() -> bool {
        true
    }

    open spec fn from_spec(err: reqwest::Error) -> Self {
        HermesError::Http(err)
    }
}

impl From<std::io::Error> for HermesError {
    fn from(err: std::io::Error) -> (e: Self)
        ensures
            e == HermesError::Io(err),
    {
        HermesError::Io(err)
    }
}

impl vstd::std_specs::convert::FromSpecImpl<std::io::Error> for HermesError {
    open spec fn obeys_from_spec() -> bool {
        true
    }

    open spec fn from_spec(err: std::io::Error) -> Self {
        HermesError::Io(err)
    }
}

} // verus!
