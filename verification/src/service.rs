//! The decisions of the RPC frontend: whether a new session is admitted,
//! and how the messages of an admitted session are relayed.

use vstd::prelude::*;
use crate::protocol::{IsolateRequest, IsolateResponse};

verus! {

/// How many sessions may wait for a worker before the frontend has to
/// wait itself.
pub const SCHEDULER_QUEUE_CAPACITY: usize = 1;

/// A new session was refused because the service has been drained.
#[derive(Clone, Copy, Debug, PartialEq, Eq, Structural)]
pub struct Unavailable;

impl Unavailable {
    /// The text that goes with the refusal.
    pub open spec fn text() -> Seq<char> {
        "instance has been drained"@
    }

    /// The text that goes with the refusal.
    pub fn message(&self) -> (text: String)
        ensures
            text@ == Self::text(),
    {
        "instance has been drained".to_owned()
    }
}

/// The state of the frontend: whether new sessions are admitted.
#[derive(Clone, Copy, Debug, PartialEq, Eq, Structural)]
pub struct IsolatorService {
    pub accept_requests: bool,
}

impl IsolatorService {
    /// The state after a drain: no new sessions.
    pub open spec fn drained(self) -> Self {
        IsolatorService { accept_requests: false }
    }

    /// The state after `n` drains in a row.
    pub open spec fn drained_times(self, n: nat) -> Self
        decreases n,
    {
        if n == 0 {
            self
        } else {
            self.drained().drained_times((n - 1) as nat)
        }
    }

    /// A frontend that admits new sessions.
    pub fn new() -> (service: Self)
        ensures
            service.accept_requests,
    {
        IsolatorService { accept_requests: true }
    }

    /// Decides on a new session: admitted unless the service was drained.
    pub fn acquire_isolate(&self) -> (outcome: Result<(), Unavailable>)
        ensures
            outcome is Ok <==> self.accept_requests,
    {
        if self.accept_requests {
            Ok(())
        } else {
            Err(Unavailable)
        }
    }

    /// Stops the admission of new sessions. Sessions that run are not
    /// touched: the frontend holds nothing of them.
    pub fn drain(&mut self)
        ensures
            *final(self) == old(self).drained(),
            !final(self).accept_requests,
    {
        self.accept_requests = false;
    }

    /// Drain idempotence: any number of drains, from one on, leaves the
    /// frontend as a single drain does.
    pub proof fn lemma_drain_idempotent(self, n: nat)
        requires
            n >= 1,
        ensures
            self.drained_times(n) == self.drained(),
            self.drained().drained() == self.drained(),
        decreases n,
    {
        if n > 1 {
            self.drained().lemma_drain_idempotent((n - 1) as nat);
        } else {
            assert(self.drained().drained_times(0) == self.drained());
        }
    }

    /// After a drain no session is admitted, whatever the state was.
    pub proof fn lemma_drained_refuses(self)
        ensures
            !self.drained().accept_requests,
    {
    }
}

/// The transport failed to read the next message of the client.
#[derive(Clone, Copy, Debug, PartialEq, Eq, Structural)]
pub struct TransportError;

/// What the output stream of a session does next.
#[derive(Debug)]
pub enum RelayAction {
    /// Hand the message to the client.
    Yield(IsolateResponse),
    /// Hand the message to the worker; end the stream if it is gone.
    Forward(IsolateRequest),
    /// Nothing to hand on; wait for the next message.
    Continue,
    /// End the stream.
    End,
}

/// Relays what came from the worker; `None` means the worker is done.
pub fn relay_worker_message(message: Option<IsolateResponse>) -> (action: RelayAction)
    ensures
        match message {
            Some(response) => action == RelayAction::Yield(response),
            None => action is End,
        },
{
    match message {
        Some(response) => RelayAction::Yield(response),
        None => RelayAction::End,
    }
}

/// Relays what came from the client: `None` is the end of its stream, an
/// error a failure of the transport, and an envelope may be empty. Only a
/// message goes on to the worker; an empty envelope is passed over, and
/// the stream ends with the client's stream or its first failure.
pub fn relay_client_frame(frame: Option<Result<Option<IsolateRequest>, TransportError>>) -> (action:
    RelayAction)
    ensures
        match frame {
            Some(Ok(Some(request))) => action == RelayAction::Forward(request),
            Some(Ok(None)) => action is Continue,
            Some(Err(_)) => action is End,
            None => action is End,
        },
{
    match frame {
        Some(Ok(Some(request))) => RelayAction::Forward(request),
        Some(Ok(None)) => RelayAction::Continue,
        Some(Err(_)) => RelayAction::End,
        None => RelayAction::End,
    }
}

} // verus!
