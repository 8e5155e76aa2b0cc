use vstd::prelude::*;
use vstd::string::StringExecFns;
use crate::error::{daemon_error_view, RpcError, RpcErrorView};
use crate::text::{decimal, decimal_string, joined, lemma_decimal_injective};
use crate::types::{JsonRpcRequest, RpcCredentials, VerusJsonRpcResponse};

verus! {

/// The id of the request that a transport sends with counter value `n`.
pub open spec fn request_id_of(n: nat) -> Seq<char> {
    "verusidx_"@ + decimal(n)
}

/// The address a transport posts to: `http://{host}:{port}/`.
pub open spec fn endpoint_url_of(host: Seq<char>, port: u16) -> Seq<char> {
    "http://"@ + host + ":"@ + decimal(port as nat) + "/"@
}

/// What the HTTP status check gives: success for a status in 200..=299, else a failed call
/// that carries the status and the body.
pub open spec fn status_failure_of(status_text: Seq<char>, body: Seq<char>) -> RpcErrorView {
    RpcErrorView::RpcCall("HTTP "@ + status_text + ": "@ + body)
}

/// The next request id of one transport, counting up from one.
#[derive(Debug)]
pub struct RequestCounter {
    next: u64,
}

impl View for RequestCounter {
    type V = nat;

    /// The counter value the next request id will carry.
    closed spec fn view(&self) -> nat {
        self.next as nat
    }
}

impl RequestCounter {
    /// A counter whose first id carries 1.
    pub fn new() -> (r: RequestCounter)
        ensures
            r@ == 1,
    {
        RequestCounter { next: 1 }
    }

    /// The id for the next request, and the counter moved past it; `None`, with the counter
    /// unchanged, once every 64-bit value has been used.
    pub fn next_request_id(&mut self) -> (r: Option<String>)
        ensures
            old(self)@ < u64::MAX ==> (r matches Some(id) && id@ == request_id_of(old(self)@)
                && final(self)@ == old(self)@ + 1),
            old(self)@ >= u64::MAX ==> r is None && final(self)@ == old(self)@,
    {
        if self.next == u64::MAX {
            return None;
        }
        let n = self.next;
        self.next = n + 1;
        Some(joined("verusidx_", decimal_string(n).as_str()))
    }
}

/// Ids made from distinct counter values differ, so one transport never sends the same id
/// twice: each call moves its counter up by one.
pub proof fn lemma_request_ids_distinct(a: nat, b: nat)
    requires
        a != b,
    ensures
        request_id_of(a) != request_id_of(b),
{
    let p = "verusidx_"@;
    if request_id_of(a) == request_id_of(b) {
        assert(request_id_of(a).subrange(p.len() as int, request_id_of(a).len() as int)
            =~= decimal(a));
        assert(request_id_of(b).subrange(p.len() as int, request_id_of(b).len() as int)
            =~= decimal(b));
        lemma_decimal_injective(a, b);
    }
}

/// The address a transport for `credentials` posts to.
pub fn endpoint_url(credentials: &RpcCredentials) -> (r: String)
    ensures
        r@ == endpoint_url_of(credentials.host@, credentials.port),
{
    let port = decimal_string(credentials.port as u64);
    joined("http://", credentials.host.as_str()).concat(":").concat(port.as_str()).concat("/")
}

/// The JSON-RPC 1.0 request for `method` with `params` and `id`.
pub fn build_request<P>(method: &str, params: P, id: String) -> (r: JsonRpcRequest<P>)
    ensures
        r.jsonrpc@ == "1.0"@,
        r.method@ == method@,
        r.params == params,
        r.id == id,
{
    JsonRpcRequest { jsonrpc: String::from_str("1.0"), method: String::from_str(method), params, id }
}

/// Checks the HTTP status of a response: success for 200..=299; otherwise a failed call
/// carrying the status as displayed and the body.
pub fn check_http_status(status: u16, status_text: &str, body: &str) -> (r: Result<(), RpcError>)
    ensures
        200 <= status <= 299 ==> r is Ok,
        !(200 <= status <= 299) ==> (r matches Err(e) && e@ == status_failure_of(
            status_text@,
            body@,
        )),
{
    if 200 <= status && status <= 299 {
        Ok(())
    } else {
        Err(RpcError::RpcCall(joined("HTTP ", status_text).concat(": ").concat(body)))
    }
}

/// What to do with a parsed response envelope.
#[derive(Debug)]
pub enum ResponseStep<T> {
    /// The daemon reported an error: the call fails with it.
    Failed(RpcError),
    /// The result is present: decode it into the caller's type.
    Decode(T),
    /// Neither error nor result: decode a null into the caller's type.
    DecodeNull,
}

/// Reads a parsed response envelope: an error object makes the call fail, whether or not a
/// result came with it; otherwise the result is decoded, or a null where there is none.
pub fn interpret_envelope<T>(envelope: VerusJsonRpcResponse<T>) -> (r: ResponseStep<T>)
    ensures
        envelope.error matches Some(e) ==> (r matches ResponseStep::Failed(f) && f@
            == daemon_error_view(e.code as int, e.message@)),
        envelope.error is None && envelope.result is Some ==> r == ResponseStep::Decode(
            envelope.result->0,
        ),
        envelope.error is None && envelope.result is None ==> r is DecodeNull,
{
    match envelope.error {
        Some(e) => ResponseStep::Failed(RpcError::from_daemon_error(e.code, e.message.as_str())),
        None => match envelope.result {
            Some(v) => ResponseStep::Decode(v),
            None => ResponseStep::DecodeNull,
        },
    }
}

/// The outcome of decoding a present result: the value, or a parse failure that names the
/// method.
pub fn conclude_result_decode<T>(method: &str, decoded: Result<T, String>) -> (r: Result<
    T,
    RpcError,
>)
    ensures
        decoded is Ok ==> r == Ok::<T, RpcError>(decoded->Ok_0),
        decoded matches Err(d) ==> (r matches Err(e) && e@ == RpcErrorView::JsonParse(
            "Failed to deserialize result for "@ + method@ + ": "@ + d@,
        )),
{
    match decoded {
        Ok(v) => Ok(v),
        Err(d) => Err(
            RpcError::JsonParse(
                joined("Failed to deserialize result for ", method).concat(": ").concat(
                    d.as_str(),
                ),
            ),
        ),
    }
}

/// The outcome of decoding a null where a response has no result: the value where the
/// caller's type accepts a null, else a parse failure that names the method.
pub fn conclude_null_decode<T>(method: &str, decoded: Option<T>) -> (r: Result<T, RpcError>)
    ensures
        decoded is Some ==> r == Ok::<T, RpcError>(decoded->0),
        decoded is None ==> (r matches Err(e) && e@ == RpcErrorView::JsonParse(
            "No result field found for method: "@ + method@,
        )),
{
    match decoded {
        Some(v) => Ok(v),
        None => Err(RpcError::JsonParse(joined("No result field found for method: ", method))),
    }
}

/// The outcome of reading a body that is no envelope directly as the caller's type: the
/// value, or a parse failure that names the method.
pub fn conclude_bare_decode<T>(method: &str, decoded: Result<T, String>) -> (r: Result<
    T,
    RpcError,
>)
    ensures
        decoded is Ok ==> r == Ok::<T, RpcError>(decoded->Ok_0),
        decoded matches Err(d) ==> (r matches Err(e) && e@ == RpcErrorView::JsonParse(
            "Failed to parse response for "@ + method@ + ": "@ + d@,
        )),
{
    match decoded {
        Ok(v) => Ok(v),
        Err(d) => Err(
            RpcError::JsonParse(
                joined("Failed to parse response for ", method).concat(": ").concat(d.as_str()),
            ),
        ),
    }
}

} // verus!
