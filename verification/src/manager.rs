//! The decisions of a worker: how the messages of a session are routed,
//! and what the engine driver does with those that reach it.

use vstd::prelude::*;
use tokio::sync::oneshot::Sender;
use crate::protocol::{
    IsolateRequest, IsolateResponse, IsolateResponseView, ScriptKind, ScriptResult,
    ScriptResultView,
};
use crate::resources::{deliver, ResourceRequest, ResourceResponse};
use crate::runtime::{
    DefaultScriptContext, ExecutionError, ExecutionResourceTable, ModuleScriptContext,
    ScriptContext,
};
use crate::string_map::StringMap;

verus! {

/// How many messages each channel of a session holds before its sender
/// has to wait.
pub const SESSION_CHANNEL_CAPACITY: usize = 10;

/// How many characters an identifier that the service mints has.
pub const IDENTIFIER_LENGTH: usize = 32;

/// Mints an identifier: a random UUID of version 4 from
/// `uuid::Uuid::new_v4`, written by `to_simple` as 32 hexadecimal digits
/// without hyphens. Which digits come out is left open, so two calls may
/// give the same text, however unlikely that is. The call panics where
/// the system has no random bytes to give.
#[verifier::external_body]
pub(crate) fn fresh_identifier() -> (id: String)
    ensures
        id@.len() == IDENTIFIER_LENGTH,
{
    uuid::Uuid::new_v4().to_simple().to_string()
}

/// What the messaging task of a session does next.
#[derive(Debug)]
pub enum SessionAction {
    /// Pass the message on to the engine driver.
    ToDriver(IsolateRequest),
    /// Pass the message on to the client.
    ToClient(IsolateResponse),
    /// Nothing to pass on; wait for the next message.
    Continue,
    /// Tear the session down.
    Close,
}

/// The payload of a request as it goes on the wire: empty where the guest
/// gave none.
pub open spec fn payload_on_wire(payload: Option<Vec<u8>>) -> Seq<u8> {
    match payload {
        Some(bytes) => bytes@,
        None => Seq::empty(),
    }
}

/// The routing state of one session: the reply slots of the resource
/// requests that the client has not answered yet, each under the nonce
/// that the request went out with.
pub struct SessionRouter {
    pending: StringMap<Sender<ResourceResponse>>,
}

impl SessionRouter {
    /// Whether the state is well formed. Every router that this module
    /// hands out is, and its methods keep it so.
    pub closed spec fn wf(&self) -> bool {
        self.pending.wf()
    }

    /// The reply slot that waits under each nonce.
    pub closed spec fn pending(&self) -> Map<Seq<char>, Sender<ResourceResponse>> {
        self.pending@
    }

    /// How many requests wait for an answer.
    pub closed spec fn pending_count(&self) -> nat {
        self.pending.count()
    }

    /// The router of a new session: nothing is pending.
    pub fn new() -> (router: Self)
        ensures
            router.wf(),
            router.pending() == Map::<Seq<char>, Sender<ResourceResponse>>::empty(),
            router.pending_count() == 0,
    {
        SessionRouter { pending: StringMap::new() }
    }

    /// How many requests wait for an answer.
    pub fn pending_len(&self) -> (n: usize)
        ensures
            n == self.pending_count(),
    {
        self.pending.len()
    }

    /// Whether a request waits under `nonce`.
    pub fn is_pending(&self, nonce: &String) -> (waits: bool)
        requires
            self.wf(),
        ensures
            waits == self.pending().contains_key(nonce@),
    {
        self.pending.contains(nonce)
    }

    /// Takes the reply slot that waits under `nonce` out of the pending
    /// requests. A nonce under which nothing waits changes nothing.
    pub fn take_reply_slot(&mut self, nonce: &String) -> (slot: Option<Sender<ResourceResponse>>)
        requires
            old(self).wf(),
        ensures
            final(self).wf(),
            final(self).pending() == old(self).pending().remove(nonce@),
            match slot {
                Some(reply) => {
                    &&& old(self).pending().contains_key(nonce@)
                    &&& old(self).pending()[nonce@] == reply
                    &&& final(self).pending_count() + 1 == old(self).pending_count()
                },
                None => {
                    &&& !old(self).pending().contains_key(nonce@)
                    &&& final(self).pending() == old(self).pending()
                    &&& final(self).pending_count() == old(self).pending_count()
                },
            },
    {
        let slot = self.pending.remove(nonce);
        proof {
            if slot is None {
                assert(old(self).pending().remove(nonce@) =~= old(self).pending());
            }
        }
        slot
    }

    /// Pairs an answer of the client with the one reply slot that waits
    /// under its nonce, and takes that slot out of the pending requests.
    /// An answer that nothing waits for is dropped and changes nothing.
    pub fn match_response(&mut self, nonce: &String, payload: Vec<u8>) -> (matched: Option<
        (Sender<ResourceResponse>, ResourceResponse),
    >)
        requires
            old(self).wf(),
        ensures
            final(self).wf(),
            final(self).pending() == old(self).pending().remove(nonce@),
            match matched {
                Some((reply, response)) => {
                    &&& old(self).pending().contains_key(nonce@)
                    &&& old(self).pending()[nonce@] == reply
                    &&& response.payload == Some(payload)
                    &&& final(self).pending_count() + 1 == old(self).pending_count()
                },
                None => {
                    &&& !old(self).pending().contains_key(nonce@)
                    &&& final(self).pending() == old(self).pending()
                    &&& final(self).pending_count() == old(self).pending_count()
                },
            },
    {
        match self.take_reply_slot(nonce) {
            Some(reply) => Some((reply, ResourceResponse { payload: Some(payload) })),
            None => None,
        }
    }

    /// Handles what came from the client; `None` is the end of its stream.
    /// Limits and schedules go to the engine driver as they are. An answer
    /// to a resource request fulfils the one slot that waits under its
    /// nonce; an answer that nothing waits for is dropped.
    pub fn on_client_message(&mut self, message: Option<IsolateRequest>) -> (action: SessionAction)
        requires
            old(self).wf(),
        ensures
            final(self).wf(),
            match message {
                None => action is Close && final(self).pending() == old(self).pending(),
                Some(IsolateRequest::ScriptResourceResponse { nonce, payload }) => {
                    &&& action is Continue
                    &&& final(self).pending() == old(self).pending().remove(nonce@)
                    &&& final(self).pending_count() + (if old(self).pending().contains_key(
                        nonce@,
                    ) {
                        1nat
                    } else {
                        0nat
                    }) == old(self).pending_count()
                },
                Some(request) => {
                    &&& action == SessionAction::ToDriver(request)
                    &&& final(self).pending() == old(self).pending()
                },
            },
    {
        match message {
            None => SessionAction::Close,
            Some(IsolateRequest::ScriptResourceResponse { nonce, payload }) => {
                if let Some((reply, response)) = self.match_response(&nonce, payload) {
                    let _ = deliver(reply, response);
                }
                SessionAction::Continue
            },
            Some(request) => SessionAction::ToDriver(request),
        }
    }

    /// Handles what came from the engine driver; `None` means the driver
    /// is gone. Every message goes to the client as it is.
    pub fn on_driver_message(&self, message: Option<IsolateResponse>) -> (action: SessionAction)
        ensures
            match message {
                None => action is Close,
                Some(response) => action == SessionAction::ToClient(response),
            },
    {
        match message {
            None => SessionAction::Close,
            Some(response) => SessionAction::ToClient(response),
        }
    }

    /// Puts a resource request of the guest on its way to the client
    /// under `nonce`. Where the guest waits for the answer, its reply slot
    /// is kept under that nonce; a slot that waited there before is
    /// dropped.
    pub fn register(&mut self, nonce: String, request: ResourceRequest) -> (message:
        IsolateResponse)
        requires
            old(self).wf(),
        ensures
            final(self).wf(),
            message@ == (IsolateResponseView::ScriptResourceRequest {
                nonce: nonce@,
                kind: request.kind@,
                payload: payload_on_wire(request.payload),
            }),
            final(self).pending() == match request.response_sender {
                Some(reply) => old(self).pending().insert(nonce@, reply),
                None => old(self).pending(),
            },
    {
        let ResourceRequest { response_sender, kind, payload } = request;
        if let Some(reply) = response_sender {
            self.pending.insert(nonce.clone(), reply);
        }
        let payload: Vec<u8> = match payload {
            Some(bytes) => bytes,
            None => Vec::new(),
        };
        IsolateResponse::ScriptResourceRequest { nonce, kind, payload }
    }

    /// Handles what came over the resource bridge; `None` means the
    /// bridge is closed. A request goes to the client under a nonce that
    /// is minted for it.
    pub fn on_resource_request(&mut self, request: Option<ResourceRequest>) -> (action:
        SessionAction)
        requires
            old(self).wf(),
        ensures
            final(self).wf(),
            match request {
                None => action is Close && final(self).pending() == old(self).pending(),
                Some(req) => {
                    &&& action matches SessionAction::ToClient(message)
                    &&& message@ matches IsolateResponseView::ScriptResourceRequest {
                        nonce,
                        kind,
                        payload,
                    }
                    &&& nonce.len() == IDENTIFIER_LENGTH
                    &&& kind == req.kind@
                    &&& payload == payload_on_wire(req.payload)
                    &&& final(self).pending() == match req.response_sender {
                        Some(reply) => old(self).pending().insert(nonce, reply),
                        None => old(self).pending(),
                    }
                },
            },
    {
        match request {
            None => SessionAction::Close,
            Some(req) => {
                let nonce = fresh_identifier();
                SessionAction::ToClient(self.register(nonce, req))
            },
        }
    }
}

/// What the engine driver does with a message that reached it.
#[derive(Debug)]
pub enum DriverAction {
    /// Nothing more; wait for the next message.
    Idle,
    /// Run the script and report its end under `nonce`.
    Execute { nonce: String, context: ScriptContext },
}

/// The name under which every scheduled script is handed to the engine.
pub open spec fn script_name() -> Seq<char> {
    "default"@
}

/// Builds the script to run from the kind on the wire and the source
/// text. A kind that stands for nothing known is run as a bare script.
pub fn script_context(kind: i32, content: String) -> (context: ScriptContext)
    ensures
        context.name() == script_name(),
        context.content() == content@,
        context is Module <==> ScriptKind::of_wire(kind) == Some(ScriptKind::Module),
{
    match ScriptKind::from_i32(kind) {
        Some(ScriptKind::Module) => ScriptContext::Module(
            ModuleScriptContext { name: "default".to_owned(), content },
        ),
        _ => ScriptContext::Default(DefaultScriptContext { name: "default".to_owned(), content }),
    }
}

/// Handles a message of the client in the engine driver. New limits are
/// written to the isolate's record; a schedule becomes a script to run,
/// under the nonce it came with; an answer to a resource request has no
/// business here and is passed over.
pub fn on_driver_request(table: &mut ExecutionResourceTable, request: IsolateRequest) -> (action:
    DriverAction)
    ensures
        match request {
            IsolateRequest::InitializeMessage {
                execution_time_limit,
                cpu_time_limit,
                resource_requests_limit,
            } => action is Idle && *final(table) == old(table).after_initialize(
                execution_time_limit,
                cpu_time_limit,
                resource_requests_limit,
            ),
            IsolateRequest::ScriptScheduleMessage { nonce, kind, content } => {
                &&& *final(table) == *old(table)
                &&& action matches DriverAction::Execute { nonce: n, context }
                &&& n == nonce
                &&& context.name() == script_name()
                &&& context.content() == content@
                &&& (context is Module <==> ScriptKind::of_wire(kind) == Some(ScriptKind::Module))
            },
            IsolateRequest::ScriptResourceResponse { .. } => action is Idle && *final(table)
                == *old(table),
        },
{
    match request {
        IsolateRequest::InitializeMessage {
            execution_time_limit,
            cpu_time_limit,
            resource_requests_limit,
        } => {
            table.initialize(execution_time_limit, cpu_time_limit, resource_requests_limit);
            DriverAction::Idle
        },
        IsolateRequest::ScriptScheduleMessage { nonce, kind, content } => DriverAction::Execute {
            nonce,
            context: script_context(kind, content),
        },
        IsolateRequest::ScriptResourceResponse { .. } => DriverAction::Idle,
    }
}

/// How the end of a script goes on the wire: success carries no data, a
/// failure carries the text of its error.
pub open spec fn result_on_wire(outcome: Result<(), ExecutionError>) -> ScriptResultView {
    match outcome {
        Ok(()) => ScriptResultView::Success { data: Seq::empty() },
        Err(e) => ScriptResultView::Error { text: e.text() },
    }
}

/// Builds the message that reports the end of the script scheduled under
/// `nonce`. The nonce goes back as it came.
pub fn script_done(nonce: String, outcome: Result<(), ExecutionError>) -> (message: IsolateResponse)
    ensures
        message@ == (IsolateResponseView::ScriptDoneMessage {
            nonce: nonce@,
            result: result_on_wire(outcome),
        }),
{
    let result = match outcome {
        Ok(()) => ScriptResult::Success { data: Vec::new() },
        Err(e) => ScriptResult::Error { text: e.message() },
    };
    IsolateResponse::ScriptDoneMessage { nonce, result }
}


/// The stack that each worker thread gets, in bytes. The engine brings
/// its own stacks for guest code.
pub const WORKER_STACK_SIZE: usize = 100_000;

/// How the pool of worker threads is built.
#[derive(Clone, Copy, Debug, PartialEq, Eq, Structural)]
pub struct PoolSettings {
    pub num_threads: usize,
    pub thread_stack_size: usize,
}

/// The settings of the worker pool: as many threads as sessions may run
/// at once, each with the small worker stack. A pool has at least one
/// thread.
pub fn thread_pool_manager(max_thread_count: usize) -> (settings: PoolSettings)
    requires
        max_thread_count > 0,
    ensures
        settings.num_threads == max_thread_count,
        settings.thread_stack_size == WORKER_STACK_SIZE,
{
    PoolSettings { num_threads: max_thread_count, thread_stack_size: WORKER_STACK_SIZE }
}

} // verus!
