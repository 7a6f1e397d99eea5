//! The bridge over which guest code asks the host for resources.

use vstd::prelude::*;
use crate::runtime::ExecutionResourceTable;

verus! {

/// The sending half of a one-shot channel. A pending request keeps one
/// until its answer arrives; nothing is known of what is inside.
#[verifier::external_type_specification]
#[verifier::external_body]
#[verifier::reject_recursive_types(T)]
pub struct ExReplySlot<T>(tokio::sync::oneshot::Sender<T>);

/// The answer of the host to a resource request.
#[derive(Debug)]
pub struct ResourceResponse {
    pub payload: Option<Vec<u8>>,
}

/// A request of guest code for a resource of the host.
#[derive(Debug)]
pub struct ResourceRequest {
    /// Where the answer goes; absent when the guest does not wait for one.
    pub response_sender: Option<tokio::sync::oneshot::Sender<ResourceResponse>>,
    /// What kind of resource is asked for.
    pub kind: String,
    /// What the guest handed over with the request.
    pub payload: Option<Vec<u8>>,
}

/// Why a host call of the guest failed.
#[derive(Clone, Copy, Debug, PartialEq, Eq, Structural)]
pub enum BridgeError {
    /// The session's cap on resource requests is reached.
    RequestLimitExceeded,
    /// The channel to the session is closed.
    Unavailable,
}

/// Hands `response` to the receiver that waits at the other end of
/// `reply`, through `tokio::sync::oneshot::Sender::send`. The call never
/// blocks. It tells whether the receiver was still there, which nothing
/// here can foresee.
#[verifier::external_body]
pub(crate) fn deliver(
    reply: tokio::sync::oneshot::Sender<ResourceResponse>,
    response: ResourceResponse,
) -> (delivered: bool) {
    reply.send(response).is_ok()
}

/// Builds the request that a host call of the guest puts on the bridge,
/// after counting it against the session's cap. Over the cap nothing is
/// counted and the call fails.
pub fn open_request(
    table: &mut ExecutionResourceTable,
    kind: String,
    payload: Option<Vec<u8>>,
    response_sender: Option<tokio::sync::oneshot::Sender<ResourceResponse>>,
) -> (outcome: Result<ResourceRequest, BridgeError>)
    ensures
        *final(table) == old(table).after_resource_request(),
        match outcome {
            Ok(request) => old(table).admits_request() && request.kind == kind && request.payload
                == payload && request.response_sender == response_sender,
            Err(e) => !old(table).admits_request() && e == BridgeError::RequestLimitExceeded,
        },
{
    match table.admit_resource_request() {
        Ok(()) => Ok(ResourceRequest { response_sender, kind, payload }),
        Err(_) => Err(BridgeError::RequestLimitExceeded),
    }
}

/// What a host call that waits for its answer returns to the guest, given
/// whether the request could be put on the bridge and what came back: the
/// payload of the answer, which may be absent, or the failure of the
/// bridge where the request could not be sent or no answer will come.
pub fn request_response_result(sent: bool, reply: Option<ResourceResponse>) -> (outcome: Result<
    Option<Vec<u8>>,
    BridgeError,
>)
    ensures
        match outcome {
            Ok(payload) => sent && reply is Some && payload == reply->0.payload,
            Err(e) => (!sent || reply is None) && e == BridgeError::Unavailable,
        },
{
    if !sent {
        return Err(BridgeError::Unavailable);
    }
    match reply {
        Some(response) => Ok(response.payload),
        None => Err(BridgeError::Unavailable),
    }
}

} // verus!
