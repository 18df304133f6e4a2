use web_worker::WorkerId;
use web_worker::WorkerThreadType;
use web_worker::control::ControlChannelRead;
use web_worker::control::WorkerControlEvent;
use web_worker::control::terminal_error_payload;
use web_worker::errors::EngineError;
use web_worker::errors::JsErrorData;
use web_worker::errors::StackFrame;
use web_worker::handles::WebWorkerHandle;
use web_worker::handles::create_handles;
use web_worker::run_loop::EnginePoll;
use web_worker::run_loop::WebWorker;
use web_worker::run_loop::WebWorkerOptions;
use web_worker::run_loop::WorkerLoopEvent;
use web_worker::run_loop::WorkerMetadata;
use web_worker::run_loop::WorkerPhase;
use web_worker::run_loop::run_web_worker;

fn worker_options(name: &str, worker_type: WorkerThreadType, close_on_idle: bool) -> WebWorkerOptions {
    WebWorkerOptions {
        name: name.to_string(),
        main_module: "file:///main.ts".to_string(),
        worker_id: WorkerId(1),
        worker_type,
        close_on_idle,
        maybe_worker_metadata: None,
    }
}

#[test]
fn idle_close_worker_reports_single_close() {
    let (mut worker, sendable, mut shared) =
        WebWorker::bootstrap_from_options(worker_options("idle", WorkerThreadType::Module, true));
    let host: WebWorkerHandle = sendable.into();
    let events = vec![
        WorkerLoopEvent::Poll { engine: EnginePoll::Pending, has_message_event_listener: true },
        WorkerLoopEvent::Poll {
            engine: EnginePoll::Ready(Ok(())),
            has_message_event_listener: false,
        },
    ];
    let report = run_web_worker(&mut worker, &mut shared, None, Ok(()), events);
    assert_eq!(worker.phase, WorkerPhase::ClosedIdle);
    assert_eq!(report.aborts, 0);
    assert!(!report.inconsistency);
    assert!(matches!(
        host.get_control_event(&mut shared),
        ControlChannelRead::Received(WorkerControlEvent::Close)
    ));
    assert!(matches!(host.get_control_event(&mut shared), ControlChannelRead::Closed));
}

#[test]
fn close_equivalent_call_reports_close_then_end() {
    let (mut worker, sendable, mut shared) =
        WebWorker::bootstrap_from_options(worker_options("closer", WorkerThreadType::Module, true));
    let host: WebWorkerHandle = sendable.into();
    let events = vec![
        WorkerLoopEvent::Poll { engine: EnginePoll::Pending, has_message_event_listener: true },
        WorkerLoopEvent::CloseRequested,
    ];
    let report = run_web_worker(&mut worker, &mut shared, None, Ok(()), events);
    assert_eq!(worker.phase, WorkerPhase::ClosedExplicit);
    assert_eq!(report.aborts, 0);
    match host.get_control_event(&mut shared) {
        ControlChannelRead::Received(ev) => assert_eq!(ev, WorkerControlEvent::Close),
        other => panic!("expected a close event, found {:?}", other),
    }
    assert!(matches!(host.get_control_event(&mut shared), ControlChannelRead::Closed));
}

#[test]
fn load_error_reports_single_terminal_error() {
    let (mut worker, sendable, mut shared) =
        WebWorker::bootstrap_from_options(worker_options("broken", WorkerThreadType::Module, true));
    let host: WebWorkerHandle = sendable.into();
    let frames = vec![
        StackFrame {
            file_name: Some("ext:core/01_core.js".to_string()),
            line_number: Some(10),
            column_number: Some(2),
        },
        StackFrame {
            file_name: Some("[ext:runtime/bootstrap.js]".to_string()),
            line_number: Some(4),
            column_number: Some(1),
        },
        StackFrame { file_name: None, line_number: None, column_number: None },
        StackFrame {
            file_name: Some("file:///main.ts".to_string()),
            line_number: Some(3),
            column_number: Some(7),
        },
    ];
    let thrown = EngineError::Js(JsErrorData {
        exception_message: "Error: boom".to_string(),
        frames,
    });
    let report = run_web_worker(&mut worker, &mut shared, None, Err(thrown), vec![]);
    assert_eq!(worker.phase, WorkerPhase::TerminalError);
    assert_eq!(report.aborts, 0);
    match host.get_control_event(&mut shared) {
        ControlChannelRead::Received(WorkerControlEvent::TerminalError(e)) => {
            let payload = terminal_error_payload(&e);
            assert_eq!(payload.message, "Error: boom");
            assert_eq!(payload.file_name.as_deref(), Some("file:///main.ts"));
            assert_eq!(payload.line_number, Some(3));
            assert_eq!(payload.column_number, Some(7));
        },
        other => panic!("expected a terminal error event, found {:?}", other),
    }
    assert!(matches!(host.get_control_event(&mut shared), ControlChannelRead::Closed));
}

#[test]
fn concurrent_terminates_invoke_abort_exactly_once() {
    let (internal, sendable, mut shared) =
        create_handles("raced".to_string(), WorkerThreadType::Module);
    let host: WebWorkerHandle = sendable.into();
    let second_host = host.clone();
    let first = host.terminate(&mut shared);
    let second = second_host.terminate(&mut shared);
    assert!(first.wake_worker);
    assert!(first.schedule_forced_abort);
    assert!(!second.wake_worker);
    assert!(!second.schedule_forced_abort);
    let mut aborts = 0;
    let cooperative = internal.terminate_if_needed(&mut shared);
    assert!(cooperative.terminated_now);
    if cooperative.invoke_abort {
        aborts += 1;
    }
    if shared.termination.forced_abort() {
        aborts += 1;
    }
    assert_eq!(aborts, 1);
}

#[test]
fn forced_abort_path_invokes_abort_exactly_once() {
    let (mut worker, sendable, mut shared) = WebWorker::bootstrap_from_options(worker_options(
        "forced",
        WorkerThreadType::Module,
        false,
    ));
    let host: WebWorkerHandle = sendable.into();
    let events = vec![
        WorkerLoopEvent::TerminateRequested,
        WorkerLoopEvent::ForcedAbortFires,
        WorkerLoopEvent::Poll { engine: EnginePoll::Pending, has_message_event_listener: true },
    ];
    let report = run_web_worker(&mut worker, &mut shared, None, Ok(()), events);
    assert_eq!(worker.phase, WorkerPhase::ForcedTerminate);
    assert_eq!(report.aborts, 1);
    // A terminated worker posts nothing; the host only sees the stream end.
    assert!(matches!(host.get_control_event(&mut shared), ControlChannelRead::Closed));
}

#[test]
fn cooperative_terminate_supersedes_pending_work() {
    let (mut worker, _sendable, mut shared) = WebWorker::bootstrap_from_options(worker_options(
        "cooperative",
        WorkerThreadType::Module,
        false,
    ));
    let events = vec![
        WorkerLoopEvent::TerminateRequested,
        WorkerLoopEvent::Poll {
            engine: EnginePoll::Ready(Err(EngineError::Other("late failure".to_string()))),
            has_message_event_listener: true,
        },
    ];
    let report = run_web_worker(&mut worker, &mut shared, None, Ok(()), events);
    // Termination supersedes the concurrently-pending script error.
    assert_eq!(worker.phase, WorkerPhase::ForcedTerminate);
    assert_eq!(report.aborts, 1);
    assert!(!shared.termination.forced_abort());
}

#[test]
fn terminate_after_channel_closed_adds_no_abort() {
    let (internal, sendable, mut shared) =
        create_handles("gone".to_string(), WorkerThreadType::Module);
    shared.channel.close();
    let posted = internal.post_event(&mut shared, WorkerControlEvent::Close);
    assert!(posted.is_ok());
    assert!(internal.is_terminated(&shared));
    let host: WebWorkerHandle = sendable.into();
    let actions = host.terminate(&mut shared);
    assert!(!actions.wake_worker);
    assert!(!actions.schedule_forced_abort);
    assert!(!shared.termination.forced_abort());
}

#[test]
fn persistent_worker_never_reaches_terminal_state() {
    let (mut worker, sendable, mut shared) = WebWorker::bootstrap_from_options(worker_options(
        "persistent",
        WorkerThreadType::Module,
        false,
    ));
    let host: WebWorkerHandle = sendable.into();
    let mut events = Vec::new();
    for _ in 0..16 {
        events.push(WorkerLoopEvent::Poll {
            engine: EnginePoll::Pending,
            has_message_event_listener: true,
        });
    }
    let report = run_web_worker(&mut worker, &mut shared, None, Ok(()), events);
    assert_eq!(worker.phase, WorkerPhase::Running);
    assert_eq!(report.aborts, 0);
    assert!(!report.inconsistency);
    assert!(matches!(host.get_control_event(&mut shared), ControlChannelRead::Empty));
}

#[test]
fn persistent_module_worker_idle_exit_is_inconsistency() {
    let (mut worker, _sendable, mut shared) = WebWorker::bootstrap_from_options(worker_options(
        "persistent",
        WorkerThreadType::Module,
        false,
    ));
    let events = vec![WorkerLoopEvent::Poll {
        engine: EnginePoll::Ready(Ok(())),
        has_message_event_listener: false,
    }];
    let report = run_web_worker(&mut worker, &mut shared, None, Ok(()), events);
    assert!(report.inconsistency);
    assert_eq!(worker.phase, WorkerPhase::Running);
    assert!(!shared.channel.closed);
}

#[test]
fn classic_worker_idle_exit_closes_instead_of_failing() {
    let (mut worker, sendable, mut shared) = WebWorker::bootstrap_from_options(worker_options(
        "classic",
        WorkerThreadType::Classic,
        false,
    ));
    let host: WebWorkerHandle = sendable.into();
    let events = vec![WorkerLoopEvent::Poll {
        engine: EnginePoll::Ready(Ok(())),
        has_message_event_listener: false,
    }];
    let report = run_web_worker(&mut worker, &mut shared, None, Ok(()), events);
    assert!(!report.inconsistency);
    assert_eq!(worker.phase, WorkerPhase::ClosedIdle);
    assert!(matches!(
        host.get_control_event(&mut shared),
        ControlChannelRead::Received(WorkerControlEvent::Close)
    ));
}

#[test]
fn bootstrap_consumes_startup_payload_exactly_once() {
    let mut options = worker_options("payload", WorkerThreadType::Module, true);
    options.maybe_worker_metadata = Some(WorkerMetadata { buffer: vec![1, 2, 3] });
    let (mut worker, _sendable, _shared) = WebWorker::from_options(options);
    assert_eq!(worker.phase, WorkerPhase::Created);
    let payload = worker.bootstrap();
    assert_eq!(worker.phase, WorkerPhase::Bootstrapped);
    assert_eq!(payload, Some(WorkerMetadata { buffer: vec![1, 2, 3] }));
    assert!(worker.maybe_worker_metadata.is_none());
}

#[test]
fn terminate_disentangles_host_port_only() {
    let (_internal, sendable, mut shared) =
        create_handles("ports".to_string(), WorkerThreadType::Module);
    let host: WebWorkerHandle = sendable.into();
    assert!(shared.host_port_entangled);
    assert!(shared.worker_port_entangled);
    host.terminate(&mut shared);
    assert!(!shared.host_port_entangled);
    assert!(shared.worker_port_entangled);
}
