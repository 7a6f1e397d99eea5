use isolator::console::get_declaration;
use isolator::drive::{DriveAction, EngineEvent, EngineFailure, Execution, Phase};
use isolator::manager::{on_driver_request, DriverAction, SessionAction, SessionRouter};
use isolator::modules::{
    make_module_specifier, module_request, module_source, qualify_specifier, ModuleLoadError,
    ModuleResolutionError, ResolutionStep,
};
use isolator::protocol::{IsolateRequest, IsolateResponse, ScriptResult};
use isolator::resources::ResourceResponse;
use isolator::runtime::{near_heap_limit, ExecutionResourceTable, ScriptContext};
use isolator::service::IsolatorService;
use isolator::time::{Duration, Instant};
use tokio::sync::oneshot;

fn at_ms(ms: u64) -> Instant {
    Instant::from_nanos(ms * 1_000_000)
}

fn initialize(table: &mut ExecutionResourceTable, exec: u64, cpu: u64, req: u32) {
    let message = IsolateRequest::InitializeMessage {
        execution_time_limit: exec,
        cpu_time_limit: cpu,
        resource_requests_limit: req,
    };
    assert!(matches!(on_driver_request(table, message), DriverAction::Idle));
}

fn schedule(table: &mut ExecutionResourceTable, nonce: &str, kind: i32, content: &str) -> (String, ScriptContext) {
    let message = IsolateRequest::ScriptScheduleMessage {
        nonce: nonce.to_string(),
        kind,
        content: content.to_string(),
    };
    match on_driver_request(table, message) {
        DriverAction::Execute { nonce, context } => (nonce, context),
        other => panic!("unexpected action {:?}", other),
    }
}

fn failure(text: &str, terminated: bool) -> EngineFailure {
    EngineFailure { text: text.to_string(), terminated }
}

#[test]
fn happy_path() {
    let mut table = ExecutionResourceTable::new();
    let mut execution = Execution::new();
    initialize(&mut table, 1000, 1000, 10);
    let (nonce, context) = schedule(&mut table, "A", 0, "1+1");
    assert!(matches!(context, ScriptContext::Default(_)));

    match execution.schedule(&mut table, nonce, at_ms(0)) {
        DriveAction::Enter { deadline } => assert_eq!(deadline, Some(Duration::from_millis(1000))),
        other => panic!("unexpected action {:?}", other),
    }
    assert_eq!(execution.current_phase(), Phase::Entering);
    assert_eq!(table.current_wakeup, Some(at_ms(0)));

    let action = execution.on_engine_event(&mut table, EngineEvent::Entered(Ok(())), at_ms(2));
    assert!(matches!(action, DriveAction::Poll));
    assert_eq!(execution.current_phase(), Phase::Polling);
    assert_eq!(table.cpu_time, Duration::from_millis(2));
    assert_eq!(table.current_wakeup, Some(at_ms(2)));

    let action = execution.on_engine_event(&mut table, EngineEvent::Polled(Some(Ok(()))), at_ms(3));
    match action {
        DriveAction::Done {
            message: IsolateResponse::ScriptDoneMessage { nonce, result: ScriptResult::Success { data } },
            close,
        } => {
            assert_eq!(nonce, "A");
            assert!(data.is_empty());
            assert!(!close);
        }
        other => panic!("unexpected action {:?}", other),
    }
    assert_eq!(execution.current_phase(), Phase::Idle);
    assert_eq!(table.current_wakeup, None);
    assert_eq!(table.started_at, None);
    assert_eq!(table.cpu_time, Duration::from_millis(3));
}

#[test]
fn cpu_runaway() {
    let mut table = ExecutionResourceTable::new();
    let mut execution = Execution::new();
    initialize(&mut table, 0, 100, 0);
    let (nonce, _) = schedule(&mut table, "B", 0, "while(true){}");
    match execution.schedule(&mut table, nonce, at_ms(0)) {
        DriveAction::Enter { deadline } => assert_eq!(deadline, None),
        other => panic!("unexpected action {:?}", other),
    }
    // the supervisor samples while the script spins
    assert!(!table.cpu_budget_exceeded(at_ms(50)));
    assert!(!table.cpu_budget_exceeded(at_ms(100)));
    assert!(table.cpu_budget_exceeded(at_ms(101)));
    // the terminated engine comes back with an error
    let event = EngineEvent::Entered(Err(failure("Uncaught Error: execution terminated", true)));
    match execution.on_engine_event(&mut table, event, at_ms(102)) {
        DriveAction::Done {
            message: IsolateResponse::ScriptDoneMessage { nonce, result: ScriptResult::Error { text } },
            close,
        } => {
            assert_eq!(nonce, "B");
            assert!(text.contains("CPU time"));
            assert_eq!(text, "Isolate has run out of CPU time");
            assert!(close);
        }
        other => panic!("unexpected action {:?}", other),
    }
    assert_eq!(execution.current_phase(), Phase::Idle);
}

#[test]
fn wall_clock_wait() {
    let mut table = ExecutionResourceTable::new();
    let mut execution = Execution::new();
    initialize(&mut table, 100, 0, 0);
    let (nonce, _) = schedule(&mut table, "W", 0, "await never()");
    match execution.schedule(&mut table, nonce, at_ms(0)) {
        DriveAction::Enter { deadline } => assert_eq!(deadline, Some(Duration::from_millis(100))),
        other => panic!("unexpected action {:?}", other),
    }
    assert!(matches!(
        execution.on_engine_event(&mut table, EngineEvent::Entered(Ok(())), at_ms(1)),
        DriveAction::Poll
    ));
    assert!(matches!(
        execution.on_engine_event(&mut table, EngineEvent::Polled(None), at_ms(2)),
        DriveAction::AwaitWake
    ));
    assert_eq!(execution.current_phase(), Phase::Suspended);
    assert_eq!(table.current_wakeup, None);
    match execution.on_engine_event(&mut table, EngineEvent::DeadlineElapsed, at_ms(100)) {
        DriveAction::Done {
            message: IsolateResponse::ScriptDoneMessage { nonce, result: ScriptResult::Error { text } },
            close,
        } => {
            assert_eq!(nonce, "W");
            assert!(text.contains("execution time"));
            assert!(!close);
        }
        other => panic!("unexpected action {:?}", other),
    }
    assert_eq!(execution.current_phase(), Phase::Idle);
    // the session survives: the next script starts
    assert!(matches!(
        execution.schedule(&mut table, "next".to_string(), at_ms(200)),
        DriveAction::Enter { .. }
    ));
}

#[test]
fn deadline_ends_a_script_inside_the_engine_too() {
    let mut table = ExecutionResourceTable::new();
    let mut execution = Execution::new();
    initialize(&mut table, 100, 0, 0);
    execution.schedule(&mut table, "S".to_string(), at_ms(0));
    let action = execution.on_engine_event(&mut table, EngineEvent::DeadlineElapsed, at_ms(100));
    assert!(matches!(action, DriveAction::Done { close: false, .. }));
    assert_eq!(table.current_wakeup, None);
    assert_eq!(execution.current_phase(), Phase::Idle);
}

#[test]
fn woken_after_the_budget_ends_the_script() {
    let mut table = ExecutionResourceTable::new();
    let mut execution = Execution::new();
    initialize(&mut table, 100, 0, 0);
    execution.schedule(&mut table, "S".to_string(), at_ms(0));
    execution.on_engine_event(&mut table, EngineEvent::Entered(Ok(())), at_ms(1));
    execution.on_engine_event(&mut table, EngineEvent::Polled(None), at_ms(2));
    match execution.on_engine_event(&mut table, EngineEvent::Woken, at_ms(101)) {
        DriveAction::Done {
            message: IsolateResponse::ScriptDoneMessage { result: ScriptResult::Error { text }, .. },
            ..
        } => assert_eq!(text, "Isolate has run out of execution time"),
        other => panic!("unexpected action {:?}", other),
    }
}

#[test]
fn woken_within_budget_polls_again() {
    let mut table = ExecutionResourceTable::new();
    let mut execution = Execution::new();
    execution.schedule(&mut table, "S".to_string(), at_ms(0));
    execution.on_engine_event(&mut table, EngineEvent::Entered(Ok(())), at_ms(1));
    execution.on_engine_event(&mut table, EngineEvent::Polled(None), at_ms(2));
    assert!(matches!(
        execution.on_engine_event(&mut table, EngineEvent::Woken, at_ms(50)),
        DriveAction::Poll
    ));
    assert_eq!(table.current_wakeup, Some(at_ms(50)));
    assert_eq!(execution.current_phase(), Phase::Polling);
}

#[test]
fn events_out_of_phase_change_nothing() {
    let mut table = ExecutionResourceTable::new();
    let mut execution = Execution::new();
    for event in [
        EngineEvent::Woken,
        EngineEvent::DeadlineElapsed,
        EngineEvent::Entered(Ok(())),
        EngineEvent::Polled(None),
    ] {
        assert!(matches!(
            execution.on_engine_event(&mut table, event, at_ms(1)),
            DriveAction::Nothing
        ));
        assert_eq!(execution.current_phase(), Phase::Idle);
    }
    execution.schedule(&mut table, "S".to_string(), at_ms(0));
    assert!(matches!(
        execution.schedule(&mut table, "T".to_string(), at_ms(1)),
        DriveAction::Nothing
    ));
    assert!(matches!(
        execution.on_engine_event(&mut table, EngineEvent::Woken, at_ms(1)),
        DriveAction::Nothing
    ));
    assert_eq!(execution.current_phase(), Phase::Entering);
    assert_eq!(table.current_wakeup, Some(at_ms(0)));
}

#[test]
fn script_error_keeps_the_session() {
    let mut table = ExecutionResourceTable::new();
    let mut execution = Execution::new();
    execution.schedule(&mut table, "E".to_string(), at_ms(0));
    let event = EngineEvent::Entered(Err(failure("Uncaught SyntaxError", false)));
    match execution.on_engine_event(&mut table, event, at_ms(1)) {
        DriveAction::Done {
            message: IsolateResponse::ScriptDoneMessage { nonce, result: ScriptResult::Error { text } },
            close,
        } => {
            assert_eq!(nonce, "E");
            assert_eq!(text, "Uncaught SyntaxError");
            assert!(!close);
        }
        other => panic!("unexpected action {:?}", other),
    }
}

#[test]
fn module_load() {
    let mut table = ExecutionResourceTable::new();
    let mut router = SessionRouter::new();
    initialize(&mut table, 1000, 1000, 10);
    let (nonce, context) = schedule(&mut table, "C", 1, "import x from 'm'; export default x;");
    assert_eq!(nonce, "C");
    assert!(matches!(context, ScriptContext::Module(_)));

    // the bare specifier gets the reserved prefix
    let step = make_module_specifier("m", Err(ModuleResolutionError::ImportPrefixMissing));
    let url = match step {
        ResolutionStep::Retry(qualified) => qualified,
        other => panic!("unexpected step {:?}", other),
    };
    assert_eq!(url, "https://isolator/m");

    // the loader asks the client for the source
    let (reply, mut answer) = oneshot::channel::<ResourceResponse>();
    let request = module_request(&url, reply);
    let request_nonce = match router.on_resource_request(Some(request)) {
        SessionAction::ToClient(IsolateResponse::ScriptResourceRequest { nonce, kind, payload }) => {
            assert_eq!(kind, "module");
            assert_eq!(payload, b"https://isolator/m".to_vec());
            nonce
        }
        other => panic!("unexpected action {:?}", other),
    };

    // the client answers
    let response = IsolateRequest::ScriptResourceResponse {
        nonce: request_nonce,
        payload: b"export default 42;".to_vec(),
    };
    assert!(matches!(router.on_client_message(Some(response)), SessionAction::Continue));
    let source = module_source(&url, answer.try_recv().unwrap()).unwrap();
    assert_eq!(source.code, "export default 42;");
    assert_eq!(source.module_url_found, "https://isolator/m");
    assert_eq!(source.module_url_specified, "https://isolator/m");
}

#[test]
fn module_specifier_steps() {
    assert_eq!(qualify_specifier("m"), "https://isolator/m");
    assert_eq!(qualify_specifier(""), "https://isolator/");
    assert_eq!(qualify_specifier("a/b.js"), "https://isolator/a/b.js");
    match make_module_specifier("./m.js", Ok("https://isolator/m.js".to_string())) {
        ResolutionStep::Resolved(url) => assert_eq!(url, "https://isolator/m.js"),
        other => panic!("unexpected step {:?}", other),
    }
    match make_module_specifier("::", Err(ModuleResolutionError::Other("invalid URL".to_string()))) {
        ResolutionStep::Failed(ModuleResolutionError::Other(text)) => assert_eq!(text, "invalid URL"),
        other => panic!("unexpected step {:?}", other),
    }
}

#[test]
fn module_source_needs_a_utf8_payload() {
    let absent = module_source("https://isolator/m", ResourceResponse { payload: None });
    assert_eq!(absent.unwrap_err(), ModuleLoadError::Failed);
    let broken = module_source("https://isolator/m", ResourceResponse { payload: Some(vec![0xff, 0xfe]) });
    assert_eq!(broken.unwrap_err(), ModuleLoadError::Failed);
    let truncated = module_source("https://isolator/m", ResourceResponse { payload: Some(vec![0xe2, 0x82]) });
    assert_eq!(truncated.unwrap_err(), ModuleLoadError::Failed);
    let empty = module_source("https://isolator/m", ResourceResponse { payload: Some(vec![]) });
    assert_eq!(empty.unwrap().code, "");
    let euro = module_source("u", ResourceResponse { payload: Some(vec![0xe2, 0x82, 0xac]) });
    assert_eq!(euro.unwrap().code, "\u{20ac}");
}

#[test]
fn module_load_error_texts() {
    assert_eq!(
        ModuleLoadError::Failed.message("https://isolator/m"),
        "Failed to load module: https://isolator/m"
    );
    assert_eq!(
        ModuleLoadError::OpStateUnavailable.message("x"),
        "OpState unavailable to load module: x"
    );
    assert_eq!(
        ModuleLoadError::RequestManagerUnavailable.message("x"),
        "Request Manager unavailable to load module: x"
    );
}

#[test]
fn drain_then_acquire() {
    let mut service = IsolatorService::new();
    // session 1 is admitted and runs
    assert!(service.acquire_isolate().is_ok());
    let mut table = ExecutionResourceTable::new();
    let mut execution = Execution::new();
    service.drain();
    // session 2 is refused
    assert!(service.acquire_isolate().is_err());
    // session 1 goes on to accept schedules
    let (nonce, _) = schedule(&mut table, "D", 0, "1+1");
    assert!(matches!(
        execution.schedule(&mut table, nonce, at_ms(0)),
        DriveAction::Enter { .. }
    ));
}

#[test]
fn heap_exhaustion() {
    let soft_limit: usize = 1 << 20;
    // the callback grants one more increment so that the script can unwind
    assert_eq!(near_heap_limit(soft_limit, soft_limit, None), 2 << 20);
    let mut table = ExecutionResourceTable::new();
    let mut execution = Execution::new();
    execution.schedule(&mut table, "H".to_string(), at_ms(0));
    let event = EngineEvent::Entered(Err(failure("Uncaught Error: execution terminated", true)));
    match execution.on_engine_event(&mut table, event, at_ms(5)) {
        DriveAction::Done {
            message: IsolateResponse::ScriptDoneMessage { nonce, result: ScriptResult::Error { text } },
            close,
        } => {
            assert_eq!(nonce, "H");
            assert!(text.contains("terminated"));
            assert!(close);
        }
        other => panic!("unexpected action {:?}", other),
    }
}

#[test]
fn console_declaration_file() {
    assert_eq!(get_declaration(), "lib.deno_console.d.ts");
}

