//! The single error kind that a client call resolves to.
use vstd::prelude::*;

verus! {

/// A JSON value of serde_json, carried through opaquely.
#[verifier::external_type_specification]
#[verifier::external_body]
pub struct ExValue(serde_json::Value);

/// serde_json's error, which the library turns into its own.
#[verifier::external_type_specification]
#[verifier::external_body]
pub struct ExJsonError(serde_json::Error);

/// Why a call failed.
#[derive(Debug)]
pub enum ClientError {
    /// The transport could not deliver the request or receive the response.
    Transport(String),
    /// The response was not JSON, was shaped as a batch, or its result did
    /// not match the declared result type.
    Parse,
    /// The remote side answered with an error envelope, kept verbatim.
    Server { code: i64, message: String, data: Option<serde_json::Value> },
}

} // verus!
