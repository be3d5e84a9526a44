//! The transport capability and the call sites built on it.
use vstd::prelude::*;
use crate::error::ClientError;
use crate::method::{is_client_of, params_view, ClientMethod, MethodDescriptor};
use crate::request::{build_request, lemma_params_entries, params_text, request_text, texts_of, total_len};
use crate::response::{decode_response, response_outcome};

verus! {

/// The one capability that a client needs: moving a request text to the
/// remote side and bringing back the response text. Any provider of it (an
/// in-process dispatcher, a pooled connection, an HTTP client) backs every
/// client built here.
pub trait RpcClient: Send + Sync + 'static {
    /// Sends a request text and returns the response text, or why the
    /// exchange failed.
    fn call_method(&self, request: String) -> Result<String, ClientError>;
}

/// The outcome of a call given what the transport brought back: a transport
/// failure unchanged, otherwise the decoded response.
pub open spec fn call_outcome(transported: Result<String, ClientError>) -> Result<serde_json::Value, ClientError> {
    match transported {
        Ok(text) => response_outcome(text@),
        Err(e) => Err(e),
    }
}

/// Finishes a call once the transport has answered: a transport failure is
/// passed on unchanged, a response text is decoded.
pub fn complete_call(transported: Result<String, ClientError>) -> (r: Result<serde_json::Value, ClientError>)
    ensures
        r == call_outcome(transported),
{
    match transported {
        Ok(text) => decode_response(text.as_str()),
        Err(e) => Err(e),
    }
}

/// The request text that a call of `method` with these serialized
/// arguments sends under identifier `id`. The metadata argument, if the
/// method takes one, is never part of it.
pub fn request_for(method: &ClientMethod, args: &Vec<String>, id: u64) -> (r: String)
    requires
        args@.len() == method.params@.len(),
    ensures
        r@ == request_text(method.wire_name@, texts_of(args@), id),
{
    build_request(method.wire_name.as_str(), args, id)
}

/// Calls `method` through `client`: sends the request envelope with the
/// serialized arguments, one per declared parameter, under identifier
/// `id`, and resolves to the decoded result value or to exactly one error.
pub fn invoke<C: RpcClient>(client: &C, method: &ClientMethod, args: &Vec<String>, id: u64) -> (r: Result<serde_json::Value, ClientError>)
    requires
        args@.len() == method.params@.len(),
    ensures
        exists|transported: Result<String, ClientError>| r == call_outcome(transported),
{
    let request = request_for(method, args, id);
    let transported = client.call_method(request);
    let ghost t = transported;
    let r = complete_call(transported);
    assert(r == call_outcome(t));
    r
}

/// A request sent for a method with `k` declared parameters, the metadata
/// parameter excluded, carries a `params` array of exactly those `k`
/// argument texts: `[]` when `k` is zero, never absent or null.
pub proof fn lemma_request_params(
    m: MethodDescriptor,
    default_result: Seq<char>,
    c: ClientMethod,
    args: Seq<Seq<char>>,
    id: u64,
)
    requires
        is_client_of(c, m, default_result),
        args.len() == c.params@.len(),
    ensures
        args.len() == m.params@.len(),
        request_text(c.wire_name@, args, id) == request_text(m.wire_name@, args, id),
        m.params@.len() == 0 ==> params_text(args) == seq!['[', ']'],
        m.params@.len() > 0 ==> params_text(args).len() == 2 + total_len(args) + (args.len() - 1),
{
    assert(params_view(c.params@).len() == c.params@.len());
    assert(params_view(m.params@).len() == m.params@.len());
    lemma_params_entries(args);
}

} // verus!
