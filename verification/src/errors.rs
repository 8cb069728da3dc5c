//! The error taxonomy of the orchestration protocol, and the
//! classification of a shadow key server's free-text failure bodies
//! into it. Classification matches fixed phrases inside the body,
//! independent of the HTTP status line, exactly as the wire format
//! demands.

use vstd::prelude::*;
use vstd::string::*;
use crate::textutil::{contains_seq, str_contains, trim_wrapping, trim_wrapping_chars};
use crate::types::HttpResponse;

verus! {

/// One typed failure of a remote operation. Every public operation
/// either fully succeeds or fails with exactly one of these.
#[derive(Debug, PartialEq)]
pub enum Error {
    /// Network, HTTP or RPC transport failure; never retried.
    Transport(String),
    /// The cluster already generated a server key for this id.
    KeyAlreadyGenerated,
    /// The cluster already stored a document key for this id.
    KeyAlreadyStored,
    /// No key material exists for this id.
    KeyNotFound,
    /// A non-2xx response whose body matches no known phrase.
    Unknown(String),
    /// A hex or UTF-8 decode failure: a local/remote format mismatch.
    Encoding,
    /// Gas-estimation or transaction-submission failure on the chain.
    Chain(String),
}

impl Error {
    /// The human-readable description of the failure, phrased as the
    /// remote nodes phrase it.
    pub fn message(&self) -> (r: String)
        ensures
            match self {
                Error::Transport(m) => r@ == "TransportError: "@ + m@,
                Error::KeyAlreadyGenerated => r@ == "Server key with this ID is already generated."@,
                Error::KeyAlreadyStored => r@ == "Document key with this ID is already stored."@,
                Error::KeyNotFound => r@ == "Server key with this ID is not found."@,
                Error::Unknown(b) => r@ == "UnknownError: "@ + b@,
                Error::Encoding => r@ == "EncodingError: hex or UTF-8 decode failed."@,
                Error::Chain(m) => r@ == "ChainError: "@ + m@,
            },
    {
        match self {
            Error::Transport(m) => String::from_str("TransportError: ").concat(m.as_str()),
            Error::KeyAlreadyGenerated => String::from_str(
                "Server key with this ID is already generated.",
            ),
            Error::KeyAlreadyStored => String::from_str(
                "Document key with this ID is already stored.",
            ),
            Error::KeyNotFound => String::from_str("Server key with this ID is not found."),
            Error::Unknown(b) => String::from_str("UnknownError: ").concat(b.as_str()),
            Error::Encoding => String::from_str("EncodingError: hex or UTF-8 decode failed."),
            Error::Chain(m) => String::from_str("ChainError: ").concat(m.as_str()),
        }
    }
}

/// The classes a failure body can fall into.
pub enum FailureClass {
    Generated,
    Stored,
    NotFound,
    Other,
}

/// The phrase a key server sends when a server key already exists.
pub open spec fn already_generated_phrase() -> Seq<char> {
    "Server key with this ID is already generated"@
}

/// The phrase a key server sends when a document key is already stored.
pub open spec fn already_stored_phrase() -> Seq<char> {
    "Document key with this ID is already stored"@
}

/// The phrase a key server sends when no server key exists for an id.
pub open spec fn not_found_phrase() -> Seq<char> {
    "Server key with this ID is not found"@
}

/// How a failure body is classified: the first matching phrase wins,
/// any other body is an unknown remote error.
pub open spec fn failure_class(body: Seq<char>) -> FailureClass {
    if contains_seq(body, already_generated_phrase()) {
        FailureClass::Generated
    } else if contains_seq(body, already_stored_phrase()) {
        FailureClass::Stored
    } else if contains_seq(body, not_found_phrase()) {
        FailureClass::NotFound
    } else {
        FailureClass::Other
    }
}

/// Whether `e` is exactly the error that a failure body demands.
pub open spec fn is_classified_failure(e: Error, body: Seq<char>) -> bool {
    match failure_class(body) {
        FailureClass::Generated => e is KeyAlreadyGenerated,
        FailureClass::Stored => e is KeyAlreadyStored,
        FailureClass::NotFound => e is KeyNotFound,
        FailureClass::Other => e matches Error::Unknown(b) && b@ == body,
    }
}

/// A classified failure is exactly the error its body's class demands:
/// what a flow's transition guarantees composes with what the cluster
/// model says the body is.
pub proof fn lemma_classification_determines_error(e: Error, body: Seq<char>)
    requires
        is_classified_failure(e, body),
    ensures
        failure_class(body) is Generated ==> e is KeyAlreadyGenerated,
        failure_class(body) is Stored ==> e is KeyAlreadyStored,
        failure_class(body) is NotFound ==> e is KeyNotFound,
        failure_class(body) is Other ==> (e matches Error::Unknown(b) && b@ == body),
{
}

/// Classifies the body of a non-2xx shadow response.
pub fn classify_failure_body(body: String) -> (e: Error)
    ensures
        is_classified_failure(e, body@),
{
    if str_contains(body.as_str(), "Server key with this ID is already generated") {
        Error::KeyAlreadyGenerated
    } else if str_contains(body.as_str(), "Document key with this ID is already stored") {
        Error::KeyAlreadyStored
    } else if str_contains(body.as_str(), "Server key with this ID is not found") {
        Error::KeyNotFound
    } else {
        Error::Unknown(body)
    }
}

/// What a shadow response yields: on a 2xx status the body with its
/// wrapping quote and escape characters removed, otherwise the
/// classified failure.
pub fn parse_shadow_response(resp: HttpResponse) -> (r: Result<String, Error>)
    ensures
        resp.status_ok ==> (r matches Ok(t) && t@ == trim_wrapping(resp.body@)),
        !resp.status_ok ==> (r matches Err(e) && is_classified_failure(e, resp.body@)),
{
    if resp.status_ok {
        Ok(trim_wrapping_chars(resp.body.as_str()))
    } else {
        Err(classify_failure_body(resp.body))
    }
}

} // verus!
