//! The data-availability client capability set and its RPC-backed adapter.
//!
//! A backend accepts a blob for availability and answers with a version
//! handle. The adapter here speaks to a UTXO-chain node over an authenticated
//! JSON-RPC-style HTTP round trip: `dispatch` is split into a pure
//! preparation step, which frames the request, and a pure conclusion step,
//! which interprets what came back over the wire. The transport itself —
//! the single HTTP POST between the two steps — lives outside this library.

use vstd::prelude::*;
use crate::hex::hex_of;
use crate::hex::encode_hex;

verus! {

/// Failure taxonomy of a dispatch, intentionally coarse.
///
/// `NetworkError` covers every transport fault (connection, TLS, timeout,
/// HTTP framing) and also a well-formed logical error that the backend
/// reports inside a successful HTTP body: to the caller both mean "the
/// submission did not happen". `SerializationError` covers a response body
/// that could not be read as the expected envelope.
#[derive(Debug, Clone, PartialEq, Eq)]
pub enum DAError {
    NetworkError { message: String },
    SerializationError { message: String },
}

impl DAError {
    /// The human-readable description carried by either variant.
    pub open spec fn spec_message(&self) -> Seq<char> {
        match self {
            DAError::NetworkError { message } => message@,
            DAError::SerializationError { message } => message@,
        }
    }

    /// The human-readable description carried by either variant.
    pub fn message(&self) -> (r: &String)
        ensures
            r@ == self.spec_message(),
    {
        match self {
            DAError::NetworkError { message } => message,
            DAError::SerializationError { message } => message,
        }
    }
}

/// The outcome of a successful submission: the opaque version handle under
/// which the backend references the blob thereafter.
#[derive(Debug, Clone, PartialEq, Eq)]
pub struct DispatchResponse {
    pub vh: String,
}

/// The `result` member of the response envelope: the version handle.
#[derive(Debug, Clone, PartialEq, Eq)]
pub struct DispatchResult {
    pub vh: String,
}

/// The `error` member of the response envelope: a numeric code and a message.
#[derive(Debug, Clone, PartialEq, Eq)]
pub struct RpcError {
    pub code: i32,
    pub message: String,
}

/// The response envelope: two optional members. `error` present means a
/// logical failure; `error` absent means `result` must carry the handle.
#[derive(Debug, Clone, PartialEq, Eq)]
pub struct RpcResponse {
    pub result: Option<DispatchResult>,
    pub error: Option<RpcError>,
}

/// What one wire round trip produced, as handed back by the transport.
#[derive(Debug, Clone, PartialEq, Eq)]
pub enum WireOutcome {
    /// The request never completed: connection, TLS, timeout, or HTTP
    /// framing failure. The response body, if any, was never parsed.
    TransportFailure { message: String },
    /// A response arrived but its body could not be read as the envelope.
    DecodeFailure { message: String },
    /// A response arrived and decoded into the envelope.
    Response { response: RpcResponse },
}

/// Everything the transport needs to perform one dispatch round trip:
/// where to POST, the HTTP Basic credentials, and the JSON body.
#[derive(Debug, Clone, PartialEq, Eq)]
pub struct DispatchRequest {
    pub endpoint: String,
    pub user: String,
    pub password: String,
    pub body: String,
}

/// The JSON request body for submitting a blob: a fixed method name and a
/// single parameter object carrying the blob in lowercase hexadecimal.
pub open spec fn request_body_for(data: Seq<u8>) -> Seq<char> {
    "{\"method\":\"syscoincreatenevmblob\",\"params\":{\"data\":\""@ + hex_of(data) + "\"}}"@
}

/// How a decoded response envelope must be interpreted:
/// - `error` present: a network-class failure whose message embeds the
///   backend's own message verbatim, whatever `result` holds;
/// - `error` absent, `result` present: success with that version handle;
/// - neither member present: a serialization-class failure.
pub open spec fn response_interpreted(
    response: RpcResponse,
    r: Result<DispatchResponse, DAError>,
) -> bool {
    match response.error {
        Some(e) => (r matches Err(DAError::NetworkError { message })
            && message@ == "RPC error: "@ + e.message@),
        None => match response.result {
            Some(dr) => (r matches Ok(resp) && resp.vh == dr.vh),
            None => (r matches Err(DAError::SerializationError { message })
                && message@ == "RPC response carried neither result nor error"@),
        },
    }
}

/// The capability set every data-availability backend provides. A dispatch
/// is one round trip: `prepare_dispatch` frames the request from the blob,
/// the transport performs it, and `conclude_dispatch` turns whatever the
/// wire produced into the normalized result. Both steps are pure, so a
/// backend value is stateless across calls and safe to share.
pub trait DataAvailabilityClient: Sized + Send + Sync {
    /// What `blob_size_limit` answers for this backend.
    spec fn spec_blob_size_limit(&self) -> Option<usize>;

    /// Whether `r` is the request this backend frames for blob `data`.
    spec fn prepared_for(&self, data: Seq<u8>, r: DispatchRequest) -> bool;

    /// Whether `r` is the normalized result this backend draws from a wire
    /// outcome.
    spec fn concluded_as(&self, outcome: WireOutcome, r: Result<DispatchResponse, DAError>) -> bool;

    /// The hard upper bound on blob size this backend enforces, if any;
    /// `None` means no known bound. Pure and infallible.
    fn blob_size_limit(&self) -> (r: Option<usize>)
        ensures
            r == self.spec_blob_size_limit(),
    ;

    /// Frames the one request that submits `data` to this backend.
    fn prepare_dispatch(&self, data: &Vec<u8>) -> (r: DispatchRequest)
        ensures
            self.prepared_for(data@, r),
    ;

    /// Normalizes what the wire produced for a prepared request. Infallible
    /// in itself: every failure is returned as a `DAError` value.
    fn conclude_dispatch(&self, outcome: WireOutcome) -> (r: Result<DispatchResponse, DAError>)
        ensures
            self.concluded_as(outcome, r),
    ;

    /// A new owned handle to the same backend, equal to this one in every
    /// observable respect, usable concurrently from another execution
    /// context. Infallible.
    fn clone_boxed(&self) -> (r: Box<Self>)
        ensures
            *r == *self,
    ;
}

/// The RPC-over-HTTP adapter: submits blobs with a `syscoincreatenevmblob`
/// call against one configured node endpoint, authenticated with HTTP Basic
/// credentials. Stateless across calls beyond this immutable configuration.
#[derive(Debug, PartialEq, Eq)]
pub struct SyscoinClient {
    pub rpc_url: String,
    pub user: String,
    pub password: String,
}

impl SyscoinClient {
    /// A new adapter bound to one endpoint and one set of credentials.
    pub fn new(rpc_url: String, user: String, password: String) -> (r: Self)
        ensures
            r.rpc_url == rpc_url,
            r.user == user,
            r.password == password,
    {
        SyscoinClient { rpc_url, user, password }
    }

    /// Interprets a decoded response envelope, exactly as
    /// `response_interpreted` states.
    pub fn interpret_response(response: RpcResponse) -> (r: Result<DispatchResponse, DAError>)
        ensures
            response_interpreted(response, r),
    {
        match response.error {
            Some(e) => {
                let mut message = String::from_str("RPC error: ");
                message.append(e.message.as_str());
                Err(DAError::NetworkError { message })
            },
            None => match response.result {
                Some(dr) => Ok(DispatchResponse { vh: dr.vh }),
                None => Err(
                    DAError::SerializationError {
                        message: String::from_str("RPC response carried neither result nor error"),
                    },
                ),
            },
        }
    }
}

impl DataAvailabilityClient for SyscoinClient {
    /// This backend exposes no enforced bound: callers must not assume an
    /// implicit cap.
    open spec fn spec_blob_size_limit(&self) -> Option<usize> {
        None
    }

    /// The request POSTs to the configured endpoint with a trailing slash,
    /// carries the configured credentials unchanged, and frames the blob as
    /// `request_body_for` states.
    open spec fn prepared_for(&self, data: Seq<u8>, r: DispatchRequest) -> bool {
        &&& r.endpoint@ == self.rpc_url@ + "/"@
        &&& r.user == self.user
        &&& r.password == self.password
        &&& r.body@ == request_body_for(data)
    }

    /// A transport failure is a network-class error carrying the transport's
    /// own message: it never reaches response interpretation. An undecodable
    /// body is a serialization-class error carrying the decoder's message.
    /// A decoded envelope is interpreted as `response_interpreted` states.
    open spec fn concluded_as(
        &self,
        outcome: WireOutcome,
        r: Result<DispatchResponse, DAError>,
    ) -> bool {
        match outcome {
            WireOutcome::TransportFailure { message } => (r matches Err(
                DAError::NetworkError { message: m },
            ) && m == message),
            WireOutcome::DecodeFailure { message } => (r matches Err(
                DAError::SerializationError { message: m },
            ) && m == message),
            WireOutcome::Response { response } => response_interpreted(response, r),
        }
    }

    fn blob_size_limit(&self) -> (r: Option<usize>) {
        None
    }

    fn prepare_dispatch(&self, data: &Vec<u8>) -> (r: DispatchRequest) {
        let mut endpoint = self.rpc_url.clone();
        endpoint.append("/");
        let mut body = String::from_str("{\"method\":\"syscoincreatenevmblob\",\"params\":{\"data\":\"");
        let encoded = encode_hex(data);
        body.append(encoded.as_str());
        body.append("\"}}");
        proof {
            assert(body@ =~= request_body_for(data@));
        }
        DispatchRequest { endpoint, user: self.user.clone(), password: self.password.clone(), body }
    }

    fn conclude_dispatch(&self, outcome: WireOutcome) -> (r: Result<DispatchResponse, DAError>) {
        match outcome {
            WireOutcome::TransportFailure { message } => Err(DAError::NetworkError { message }),
            WireOutcome::DecodeFailure { message } => Err(DAError::SerializationError { message }),
            WireOutcome::Response { response } => SyscoinClient::interpret_response(response),
        }
    }

    fn clone_boxed(&self) -> (r: Box<Self>) {
        Box::new(
            SyscoinClient {
                rpc_url: self.rpc_url.clone(),
                user: self.user.clone(),
                password: self.password.clone(),
            },
        )
    }
}

/// Whether an HTTP status allows the response body to be interpreted at
/// all: only a success status does. Any other framing — an authentication
/// failure among it — is a transport-level fault, indistinguishable at this
/// layer from a connectivity failure.
pub fn status_permits_interpretation(status: u16) -> (r: bool)
    ensures
        r == (200 <= status < 300),
{
    200 <= status && status < 300
}

/// Clone law: a handle equal to another — which is what `clone_boxed`
/// returns — frames the very same request for any blob, draws the very same
/// conclusion from any wire outcome, and reports the same size limit. Both
/// steps read the handle's immutable configuration and their own arguments
/// alone, so calls through an original and through its clone, in any
/// interleaving, cannot contaminate one another: each result is a function
/// of its own call's inputs.
pub proof fn lemma_clone_dispatch_agrees(
    original: SyscoinClient,
    duplicate: SyscoinClient,
    data: Seq<u8>,
    outcome: WireOutcome,
    req: DispatchRequest,
    r: Result<DispatchResponse, DAError>,
)
    requires
        original == duplicate,
    ensures
        original.prepared_for(data, req) == duplicate.prepared_for(data, req),
        original.concluded_as(outcome, r) == duplicate.concluded_as(outcome, r),
        original.spec_blob_size_limit() == duplicate.spec_blob_size_limit(),
{
}

} // verus!
