//! Decoding a response envelope into a result value or an error.
use vstd::prelude::*;
use crate::error::ClientError;
use jsonrpc_core::{Output, Response};

verus! {

/// The shape of a response text, as the envelope parser sees it.
#[derive(Debug)]
pub enum Reply {
    /// Not a response envelope at all.
    Malformed,
    /// An array of responses, which a single call never asks for.
    Batch,
    /// A success envelope with its `result`.
    Success(serde_json::Value),
    /// An error envelope with its error's code, message and data.
    Failure { code: i64, message: String, data: Option<serde_json::Value> },
}

/// What jsonrpc_core's `Response` parsing makes of a text.
pub uninterp spec fn reply_of(text: Seq<char>) -> Reply;

/// Relies on serde_json::from_str of jsonrpc_core's `Response`: it parses the
/// text into a single output (success or failure) or a batch, or fails;
/// the outcome depends on the text alone.
#[verifier::external_body]
fn read_reply(text: &str) -> (r: Reply)
    ensures
        r == reply_of(text@),
{
    match serde_json::from_str::<Response>(text) {
        Err(_) => Reply::Malformed,
        Ok(Response::Batch(_)) => Reply::Batch,
        Ok(Response::Single(Output::Success(s))) => Reply::Success(s.result),
        Ok(Response::Single(Output::Failure(f))) => Reply::Failure {
            code: f.error.code.code(),
            message: f.error.message,
            data: f.error.data,
        },
    }
}

/// The outcome that a reply stands for: its result on success, its error
/// verbatim on failure, and a parse error otherwise.
pub open spec fn reply_outcome(reply: Reply) -> Result<serde_json::Value, ClientError> {
    match reply {
        Reply::Malformed => Err(ClientError::Parse),
        Reply::Batch => Err(ClientError::Parse),
        Reply::Success(v) => Ok(v),
        Reply::Failure { code, message, data } => Err(ClientError::Server { code, message, data }),
    }
}

/// The outcome of a response text.
pub open spec fn response_outcome(text: Seq<char>) -> Result<serde_json::Value, ClientError> {
    reply_outcome(reply_of(text))
}

/// Turns a parsed reply into the call's outcome: the result value of a
/// success, the server's code, message and data of a failure, and a parse
/// error for a malformed or batch-shaped response.
pub fn decode_reply(reply: Reply) -> (r: Result<serde_json::Value, ClientError>)
    ensures
        r == reply_outcome(reply),
{
    match reply {
        Reply::Malformed => Err(ClientError::Parse),
        Reply::Batch => Err(ClientError::Parse),
        Reply::Success(v) => Ok(v),
        Reply::Failure { code, message, data } => Err(ClientError::Server { code, message, data }),
    }
}

/// Decodes a response text into its result value or its error. Every text
/// yields exactly one of the two.
pub fn decode_response(text: &str) -> (r: Result<serde_json::Value, ClientError>)
    ensures
        r == response_outcome(text@),
{
    let reply = read_reply(text);
    decode_reply(reply)
}

/// Turns the conversion of a result value into the declared result type
/// into the call's outcome: a value that does not fit that type is a parse
/// error, like malformed JSON.
pub fn finish_decode<T>(typed: Result<T, serde_json::Error>) -> (r: Result<T, ClientError>)
    ensures
        typed is Ok ==> r == Ok::<T, ClientError>(typed->Ok_0),
        typed is Err ==> r == Err::<T, ClientError>(ClientError::Parse),
{
    match typed {
        Ok(t) => Ok(t),
        Err(_) => Err(ClientError::Parse),
    }
}

/// A success reply decodes to its result value unchanged.
pub proof fn lemma_success_round_trip(v: serde_json::Value)
    ensures
        reply_outcome(Reply::Success(v)) == Ok::<serde_json::Value, ClientError>(v),
{
}

} // verus!
