use isolator::manager::{
    on_driver_request, script_context, script_done, thread_pool_manager, DriverAction,
    SessionAction, SessionRouter, WORKER_STACK_SIZE,
};
use isolator::protocol::{IsolateRequest, IsolateResponse, ScriptKind, ScriptResult};
use isolator::resources::{
    open_request, request_response_result, BridgeError, ResourceRequest, ResourceResponse,
};
use isolator::runtime::{ExecutionError, ExecutionResourceTable, ScriptContext};
use isolator::service::{
    relay_client_frame, relay_worker_message, IsolatorService, RelayAction, TransportError,
};
use isolator::string_map::StringMap;
use isolator::time::Duration;
use isolator::waker::ExecutionPollState;
use tokio::sync::oneshot;

fn request(kind: &str, payload: Option<Vec<u8>>, reply: Option<oneshot::Sender<ResourceResponse>>) -> ResourceRequest {
    ResourceRequest { response_sender: reply, kind: kind.to_string(), payload }
}

#[test]
fn string_map_inserts_finds_and_removes() {
    let mut map: StringMap<u32> = StringMap::new();
    assert_eq!(map.len(), 0);
    map.insert("a".to_string(), 1);
    map.insert("b".to_string(), 2);
    map.insert("a".to_string(), 3);
    assert_eq!(map.len(), 2);
    assert!(map.contains(&"a".to_string()));
    assert!(!map.contains(&"c".to_string()));
    assert_eq!(map.get(&"a".to_string()), Some(&3));
    assert_eq!(map.get(&"b".to_string()), Some(&2));
    assert_eq!(map.get(&"c".to_string()), None);
    assert_eq!(map.remove(&"c".to_string()), None);
    assert_eq!(map.len(), 2);
    assert_eq!(map.remove(&"a".to_string()), Some(3));
    assert_eq!(map.len(), 1);
    assert_eq!(map.remove(&"a".to_string()), None);
    assert_eq!(map.entry_at(0).key, "b");
    assert_eq!(map.entry_at(0).value, 2);
}

#[test]
fn script_kind_on_the_wire() {
    assert_eq!(ScriptKind::from_i32(0), Some(ScriptKind::Default));
    assert_eq!(ScriptKind::from_i32(1), Some(ScriptKind::Module));
    assert_eq!(ScriptKind::from_i32(2), None);
    assert_eq!(ScriptKind::from_i32(-1), None);
    assert_eq!(ScriptKind::Default.to_i32(), 0);
    assert_eq!(ScriptKind::Module.to_i32(), 1);
}

#[test]
fn client_limits_and_schedules_go_to_the_driver() {
    let mut router = SessionRouter::new();
    let init = IsolateRequest::InitializeMessage {
        execution_time_limit: 1000,
        cpu_time_limit: 1000,
        resource_requests_limit: 10,
    };
    match router.on_client_message(Some(init)) {
        SessionAction::ToDriver(IsolateRequest::InitializeMessage {
            execution_time_limit,
            cpu_time_limit,
            resource_requests_limit,
        }) => {
            assert_eq!(execution_time_limit, 1000);
            assert_eq!(cpu_time_limit, 1000);
            assert_eq!(resource_requests_limit, 10);
        }
        other => panic!("unexpected action {:?}", other),
    }
    let schedule = IsolateRequest::ScriptScheduleMessage {
        nonce: "A".to_string(),
        kind: 0,
        content: "1+1".to_string(),
    };
    match router.on_client_message(Some(schedule)) {
        SessionAction::ToDriver(IsolateRequest::ScriptScheduleMessage { nonce, kind, content }) => {
            assert_eq!(nonce, "A");
            assert_eq!(kind, 0);
            assert_eq!(content, "1+1");
        }
        other => panic!("unexpected action {:?}", other),
    }
    assert!(matches!(router.on_client_message(None), SessionAction::Close));
}

#[test]
fn driver_messages_go_to_the_client() {
    let router = SessionRouter::new();
    let done = script_done("A".to_string(), Ok(()));
    match router.on_driver_message(Some(done)) {
        SessionAction::ToClient(IsolateResponse::ScriptDoneMessage { nonce, result }) => {
            assert_eq!(nonce, "A");
            assert!(matches!(result, ScriptResult::Success { data } if data.is_empty()));
        }
        other => panic!("unexpected action {:?}", other),
    }
    assert!(matches!(router.on_driver_message(None), SessionAction::Close));
}

#[test]
fn resource_request_gets_a_fresh_nonce_and_waits_for_its_answer() {
    let mut router = SessionRouter::new();
    let (reply, mut answer) = oneshot::channel::<ResourceResponse>();
    let action = router.on_resource_request(Some(request("fetch", Some(vec![1, 2, 3]), Some(reply))));
    let nonce = match action {
        SessionAction::ToClient(IsolateResponse::ScriptResourceRequest { nonce, kind, payload }) => {
            assert_eq!(kind, "fetch");
            assert_eq!(payload, vec![1, 2, 3]);
            nonce
        }
        other => panic!("unexpected action {:?}", other),
    };
    assert_eq!(nonce.len(), 32);
    assert!(nonce.chars().all(|c| c.is_ascii_hexdigit() && !c.is_ascii_uppercase()));
    assert_eq!(router.pending_len(), 1);
    assert!(router.is_pending(&nonce));
    assert!(answer.try_recv().is_err());

    // an answer under another nonce has no effect
    let stray = IsolateRequest::ScriptResourceResponse { nonce: "nobody".to_string(), payload: vec![9] };
    assert!(matches!(router.on_client_message(Some(stray)), SessionAction::Continue));
    assert_eq!(router.pending_len(), 1);
    assert!(router.is_pending(&nonce));
    assert!(answer.try_recv().is_err());

    // the matching answer fulfils the slot and nothing else
    let matching = IsolateRequest::ScriptResourceResponse { nonce: nonce.clone(), payload: vec![7, 8] };
    assert!(matches!(router.on_client_message(Some(matching)), SessionAction::Continue));
    assert_eq!(router.pending_len(), 0);
    assert!(!router.is_pending(&nonce));
    assert_eq!(answer.try_recv().unwrap().payload, Some(vec![7, 8]));

    // a second answer under the same nonce finds nothing
    let again = IsolateRequest::ScriptResourceResponse { nonce, payload: vec![1] };
    assert!(matches!(router.on_client_message(Some(again)), SessionAction::Continue));
    assert_eq!(router.pending_len(), 0);
}

#[test]
fn minted_nonces_differ() {
    let mut router = SessionRouter::new();
    let mut seen: Vec<String> = Vec::new();
    for _ in 0..16 {
        match router.on_resource_request(Some(request("k", None, None))) {
            SessionAction::ToClient(IsolateResponse::ScriptResourceRequest { nonce, .. }) => {
                assert!(!seen.contains(&nonce));
                seen.push(nonce);
            }
            other => panic!("unexpected action {:?}", other),
        }
    }
    assert_eq!(router.pending_len(), 0);
}

#[test]
fn fire_and_forget_request_leaves_nothing_pending() {
    let mut router = SessionRouter::new();
    let message = router.register("n1".to_string(), request("log", None, None));
    match message {
        IsolateResponse::ScriptResourceRequest { nonce, kind, payload } => {
            assert_eq!(nonce, "n1");
            assert_eq!(kind, "log");
            assert!(payload.is_empty());
        }
        other => panic!("unexpected message {:?}", other),
    }
    assert_eq!(router.pending_len(), 0);
    assert!(matches!(router.on_resource_request(None), SessionAction::Close));
}

#[test]
fn each_answer_reaches_its_own_slot() {
    let mut router = SessionRouter::new();
    let (reply_a, mut answer_a) = oneshot::channel::<ResourceResponse>();
    let (reply_b, mut answer_b) = oneshot::channel::<ResourceResponse>();
    router.register("a".to_string(), request("k", None, Some(reply_a)));
    router.register("b".to_string(), request("k", None, Some(reply_b)));
    assert_eq!(router.pending_len(), 2);
    let to_b = IsolateRequest::ScriptResourceResponse { nonce: "b".to_string(), payload: vec![2] };
    router.on_client_message(Some(to_b));
    assert_eq!(router.pending_len(), 1);
    assert!(answer_a.try_recv().is_err());
    assert_eq!(answer_b.try_recv().unwrap().payload, Some(vec![2]));
    let slot = router.take_reply_slot(&"a".to_string());
    assert!(slot.is_some());
    assert!(router.take_reply_slot(&"a".to_string()).is_none());
    assert_eq!(router.pending_len(), 0);
    drop(slot);
    assert!(answer_a.try_recv().is_err());
}

#[test]
fn registering_under_a_pending_nonce_drops_the_older_slot() {
    let mut router = SessionRouter::new();
    let (old_reply, mut old_answer) = oneshot::channel::<ResourceResponse>();
    let (new_reply, mut new_answer) = oneshot::channel::<ResourceResponse>();
    router.register("n".to_string(), request("k", None, Some(old_reply)));
    router.register("n".to_string(), request("k", None, Some(new_reply)));
    assert_eq!(router.pending_len(), 1);
    assert!(matches!(old_answer.try_recv(), Err(oneshot::error::TryRecvError::Closed)));
    let answer = IsolateRequest::ScriptResourceResponse { nonce: "n".to_string(), payload: vec![] };
    router.on_client_message(Some(answer));
    assert_eq!(new_answer.try_recv().unwrap().payload, Some(vec![]));
}

#[test]
fn driver_applies_limits_and_builds_scripts() {
    let mut table = ExecutionResourceTable::new();
    let init = IsolateRequest::InitializeMessage {
        execution_time_limit: 1000,
        cpu_time_limit: 0,
        resource_requests_limit: 10,
    };
    assert!(matches!(on_driver_request(&mut table, init), DriverAction::Idle));
    assert_eq!(table.execution_time_limit, Some(Duration::from_millis(1000)));
    assert_eq!(table.cpu_time_limit, None);
    assert_eq!(table.resource_requests_limit, Some(10));

    let schedule = IsolateRequest::ScriptScheduleMessage {
        nonce: "C".to_string(),
        kind: 1,
        content: "import x from 'm'; export default x;".to_string(),
    };
    match on_driver_request(&mut table, schedule) {
        DriverAction::Execute { nonce, context: ScriptContext::Module(module) } => {
            assert_eq!(nonce, "C");
            assert_eq!(module.name, "default");
            assert_eq!(module.content, "import x from 'm'; export default x;");
        }
        other => panic!("unexpected action {:?}", other),
    }
    let stray = IsolateRequest::ScriptResourceResponse { nonce: "x".to_string(), payload: vec![] };
    assert!(matches!(on_driver_request(&mut table, stray), DriverAction::Idle));
    assert_eq!(table.execution_time_limit, Some(Duration::from_millis(1000)));
}

#[test]
fn unknown_script_kind_runs_as_a_bare_script() {
    for kind in [0, 2, -7, i32::MAX] {
        match script_context(kind, "1+1".to_string()) {
            ScriptContext::Default(script) => {
                assert_eq!(script.name, "default");
                assert_eq!(script.content, "1+1");
            }
            other => panic!("unexpected context {:?}", other),
        }
    }
    assert!(matches!(script_context(1, String::new()), ScriptContext::Module(_)));
}

#[test]
fn script_done_echoes_the_nonce() {
    match script_done("B".to_string(), Err(ExecutionError::CpuTimeout)) {
        IsolateResponse::ScriptDoneMessage { nonce, result: ScriptResult::Error { text } } => {
            assert_eq!(nonce, "B");
            assert_eq!(text, "Isolate has run out of CPU time");
        }
        other => panic!("unexpected message {:?}", other),
    }
    match script_done("".to_string(), Err(ExecutionError::Script("ReferenceError: x".to_string()))) {
        IsolateResponse::ScriptDoneMessage { nonce, result: ScriptResult::Error { text } } => {
            assert_eq!(nonce, "");
            assert_eq!(text, "ReferenceError: x");
        }
        other => panic!("unexpected message {:?}", other),
    }
}

#[test]
fn pool_settings() {
    let settings = thread_pool_manager(8);
    assert_eq!(settings.num_threads, 8);
    assert_eq!(settings.thread_stack_size, 100_000);
    assert_eq!(WORKER_STACK_SIZE, 100_000);
}

#[test]
fn bridge_counts_requests_against_the_cap() {
    let mut table = ExecutionResourceTable::new();
    table.initialize(0, 0, 1);
    let first = open_request(&mut table, "fetch".to_string(), Some(vec![1]), None).unwrap();
    assert_eq!(first.kind, "fetch");
    assert_eq!(first.payload, Some(vec![1]));
    assert!(first.response_sender.is_none());
    assert_eq!(table.resource_requests_count, 1);
    let (reply, _answer) = oneshot::channel::<ResourceResponse>();
    let second = open_request(&mut table, "fetch".to_string(), None, Some(reply));
    assert_eq!(second.unwrap_err(), BridgeError::RequestLimitExceeded);
    assert_eq!(table.resource_requests_count, 1);
}

#[test]
fn host_call_result() {
    let answered = request_response_result(true, Some(ResourceResponse { payload: Some(vec![4]) }));
    assert_eq!(answered.unwrap(), Some(vec![4]));
    let empty = request_response_result(true, Some(ResourceResponse { payload: None }));
    assert_eq!(empty.unwrap(), None);
    assert_eq!(request_response_result(true, None).unwrap_err(), BridgeError::Unavailable);
    let unsent = request_response_result(false, Some(ResourceResponse { payload: Some(vec![4]) }));
    assert_eq!(unsent.unwrap_err(), BridgeError::Unavailable);
}

#[test]
fn drain_refuses_new_sessions_and_is_idempotent() {
    let mut service = IsolatorService::new();
    assert!(service.acquire_isolate().is_ok());
    service.drain();
    let once = service;
    assert!(service.acquire_isolate().is_err());
    assert_eq!(service.acquire_isolate().unwrap_err().message(), "instance has been drained");
    for _ in 0..5 {
        service.drain();
        assert_eq!(service, once);
        assert!(service.acquire_isolate().is_err());
    }
}

#[test]
fn relay_passes_messages_and_ends_with_either_side() {
    let done = script_done("A".to_string(), Ok(()));
    assert!(matches!(
        relay_worker_message(Some(done)),
        RelayAction::Yield(IsolateResponse::ScriptDoneMessage { .. })
    ));
    assert!(matches!(relay_worker_message(None), RelayAction::End));
    let schedule = IsolateRequest::ScriptScheduleMessage {
        nonce: "A".to_string(),
        kind: 0,
        content: "1+1".to_string(),
    };
    match relay_client_frame(Some(Ok(Some(schedule)))) {
        RelayAction::Forward(IsolateRequest::ScriptScheduleMessage { nonce, .. }) => {
            assert_eq!(nonce, "A")
        }
        other => panic!("unexpected action {:?}", other),
    }
    assert!(matches!(relay_client_frame(Some(Ok(None))), RelayAction::Continue));
    assert!(matches!(relay_client_frame(Some(Err(TransportError))), RelayAction::End));
    assert!(matches!(relay_client_frame(None), RelayAction::End));
}

#[test]
fn wake_before_poll_is_not_lost() {
    let mut state = ExecutionPollState::new();
    assert!(!state.wake_by_ref());
    assert!(state.poll());
    assert!(state.poll());
}

#[test]
fn wake_after_poll_is_forwarded_and_idempotent() {
    let mut state = ExecutionPollState::new();
    assert!(!state.poll());
    assert!(state.waker_registered);
    assert!(state.wake_by_ref());
    let once = state;
    assert!(state.wake_by_ref());
    assert_eq!(state, once);
    assert!(state.poll());
}
