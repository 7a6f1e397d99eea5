//! The messages that a client and the service exchange within a session.

use vstd::prelude::*;

verus! {

/// How the content of a scheduled script is to be run.
#[derive(Clone, Copy, Debug, PartialEq, Eq, Structural)]
pub enum ScriptKind {
    /// As a bare script.
    Default,
    /// As the root of a module graph.
    Module,
}

impl ScriptKind {
    /// The kind that a number on the wire stands for.
    pub open spec fn of_wire(value: i32) -> Option<ScriptKind> {
        if value == 0 {
            Some(ScriptKind::Default)
        } else if value == 1 {
            Some(ScriptKind::Module)
        } else {
            None
        }
    }

    /// The kind that a number on the wire stands for, if it stands for one.
    pub fn from_i32(value: i32) -> (kind: Option<ScriptKind>)
        ensures
            kind == Self::of_wire(value),
    {
        if value == 0 {
            Some(ScriptKind::Default)
        } else if value == 1 {
            Some(ScriptKind::Module)
        } else {
            None
        }
    }

    /// The number that stands for this kind on the wire.
    pub fn to_i32(self) -> (value: i32)
        ensures
            Self::of_wire(value) == Some(self),
    {
        match self {
            ScriptKind::Default => 0,
            ScriptKind::Module => 1,
        }
    }
}

/// What a client sends.
#[derive(Debug)]
pub enum IsolateRequest {
    /// Sets the limits of the isolate; a zero lifts a limit.
    InitializeMessage { execution_time_limit: u64, cpu_time_limit: u64, resource_requests_limit: u32 },
    /// Asks for a script to be run.
    ScriptScheduleMessage { nonce: String, kind: i32, content: String },
    /// Answers a resource request of the running script.
    ScriptResourceResponse { nonce: String, payload: Vec<u8> },
}

/// A client message as a mathematical value.
pub ghost enum IsolateRequestView {
    InitializeMessage { execution_time_limit: u64, cpu_time_limit: u64, resource_requests_limit: u32 },
    ScriptScheduleMessage { nonce: Seq<char>, kind: i32, content: Seq<char> },
    ScriptResourceResponse { nonce: Seq<char>, payload: Seq<u8> },
}

impl View for IsolateRequest {
    type V = IsolateRequestView;

    open spec fn view(&self) -> IsolateRequestView {
        match self {
            IsolateRequest::InitializeMessage {
                execution_time_limit,
                cpu_time_limit,
                resource_requests_limit,
            } => IsolateRequestView::InitializeMessage {
                execution_time_limit: *execution_time_limit,
                cpu_time_limit: *cpu_time_limit,
                resource_requests_limit: *resource_requests_limit,
            },
            IsolateRequest::ScriptScheduleMessage {
                nonce,
                kind,
                content,
            } => IsolateRequestView::ScriptScheduleMessage {
                nonce: nonce@,
                kind: *kind,
                content: content@,
            },
            IsolateRequest::ScriptResourceResponse {
                nonce,
                payload,
            } => IsolateRequestView::ScriptResourceResponse { nonce: nonce@, payload: payload@ },
        }
    }
}

/// How a script ended.
#[derive(Debug)]
pub enum ScriptResult {
    Success { data: Vec<u8> },
    Error { text: String },
}

/// The end of a script as a mathematical value.
pub ghost enum ScriptResultView {
    Success { data: Seq<u8> },
    Error { text: Seq<char> },
}

impl View for ScriptResult {
    type V = ScriptResultView;

    open spec fn view(&self) -> ScriptResultView {
        match self {
            ScriptResult::Success { data } => ScriptResultView::Success { data: data@ },
            ScriptResult::Error { text } => ScriptResultView::Error { text: text@ },
        }
    }
}

/// What the service sends.
#[derive(Debug)]
pub enum IsolateResponse {
    /// The running script asks the client for a resource.
    ScriptResourceRequest { nonce: String, kind: String, payload: Vec<u8> },
    /// The script scheduled under `nonce` is done.
    ScriptDoneMessage { nonce: String, result: ScriptResult },
}

/// A service message as a mathematical value.
pub ghost enum IsolateResponseView {
    ScriptResourceRequest { nonce: Seq<char>, kind: Seq<char>, payload: Seq<u8> },
    ScriptDoneMessage { nonce: Seq<char>, result: ScriptResultView },
}

impl View for IsolateResponse {
    type V = IsolateResponseView;

    open spec fn view(&self) -> IsolateResponseView {
        match self {
            IsolateResponse::ScriptResourceRequest {
                nonce,
                kind,
                payload,
            } => IsolateResponseView::ScriptResourceRequest {
                nonce: nonce@,
                kind: kind@,
                payload: payload@,
            },
            IsolateResponse::ScriptDoneMessage {
                nonce,
                result,
            } => IsolateResponseView::ScriptDoneMessage { nonce: nonce@, result: result@ },
        }
    }
}

} // verus!
