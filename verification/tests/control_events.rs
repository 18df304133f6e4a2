use web_worker::WorkerId;
use web_worker::WorkerIdCounter;
use web_worker::WorkerThreadType;
use web_worker::control::ChannelSendError;
use web_worker::control::ControlChannel;
use web_worker::control::ControlChannelRead;
use web_worker::control::WorkerControlEvent;
use web_worker::control::terminal_error_payload;
use web_worker::errors::EngineError;
use web_worker::errors::JsErrorData;
use web_worker::errors::StackFrame;
use web_worker::errors::uncaught_error_message;
use web_worker::u32_to_decimal;

#[test]
fn control_event_type_ids_match_wire_shape() {
    let error_event =
        WorkerControlEvent::TerminalError(EngineError::Other("broken".to_string()));
    assert_eq!(error_event.type_id(), 1);
    assert_eq!(WorkerControlEvent::Close.type_id(), 3);
}

#[test]
fn generic_error_payload_has_no_location() {
    let payload = terminal_error_payload(&EngineError::Other("network down".to_string()));
    assert_eq!(payload.message, "network down");
    assert!(payload.file_name.is_none());
    assert!(payload.line_number.is_none());
    assert!(payload.column_number.is_none());
}

#[test]
fn error_payload_skips_internal_frames() {
    let err = EngineError::Js(JsErrorData {
        exception_message: "TypeError: x is not a function".to_string(),
        frames: vec![
            StackFrame {
                file_name: Some("[[ext:deno/web.js]]".to_string()),
                line_number: Some(1),
                column_number: Some(1),
            },
            StackFrame {
                file_name: Some("https://example.com/app.js".to_string()),
                line_number: Some(12),
                column_number: Some(8),
            },
        ],
    });
    let payload = terminal_error_payload(&err);
    assert_eq!(payload.message, "TypeError: x is not a function");
    assert_eq!(payload.file_name.as_deref(), Some("https://example.com/app.js"));
    assert_eq!(payload.line_number, Some(12));
    assert_eq!(payload.column_number, Some(8));
}

#[test]
fn error_payload_with_only_internal_frames_has_no_location() {
    let err = EngineError::Js(JsErrorData {
        exception_message: "Error: deep".to_string(),
        frames: vec![
            StackFrame {
                file_name: Some("ext:runtime/99_main.js".to_string()),
                line_number: Some(7),
                column_number: Some(3),
            },
            StackFrame { file_name: None, line_number: Some(2), column_number: Some(2) },
        ],
    });
    let payload = terminal_error_payload(&err);
    assert_eq!(payload.message, "Error: deep");
    assert!(payload.file_name.is_none());
    assert!(payload.line_number.is_none());
}

#[test]
fn channel_holds_one_event_and_drains_after_close() {
    let mut channel = ControlChannel::new();
    assert!(!channel.is_closed());
    assert!(channel.try_send(WorkerControlEvent::Close).is_ok());
    assert_eq!(
        channel.try_send(WorkerControlEvent::Close),
        Err(ChannelSendError::Full)
    );
    channel.close();
    assert_eq!(
        channel.try_send(WorkerControlEvent::Close),
        Err(ChannelSendError::Disconnected)
    );
    assert!(matches!(
        channel.try_recv(),
        ControlChannelRead::Received(WorkerControlEvent::Close)
    ));
    assert!(matches!(channel.try_recv(), ControlChannelRead::Closed));
}

#[test]
fn open_empty_channel_reports_empty() {
    let mut channel = ControlChannel::new();
    assert!(matches!(channel.try_recv(), ControlChannelRead::Empty));
}

#[test]
fn uncaught_error_message_trims_marker_and_names_worker() {
    assert_eq!(
        uncaught_error_message("mailer", "Uncaught Error: boom"),
        "Uncaught (in worker \"mailer\") Error: boom"
    );
    assert_eq!(
        uncaught_error_message("", "Uncaught Uncaught Error: twice"),
        "Uncaught (in worker \"\") Error: twice"
    );
    assert_eq!(
        uncaught_error_message("w", "plain failure"),
        "Uncaught (in worker \"w\") plain failure"
    );
}

#[test]
fn worker_ids_increase_and_are_never_reused() {
    let mut counter = WorkerIdCounter::new();
    let first = WorkerId::new(&mut counter);
    let second = WorkerId::new(&mut counter);
    let third = WorkerId::new(&mut counter);
    assert_eq!(first, WorkerId(1));
    assert_eq!(second, WorkerId(2));
    assert_eq!(third, WorkerId(3));
}

#[test]
fn worker_id_display_form() {
    assert_eq!(WorkerId(0).to_display_string(), "worker-0");
    assert_eq!(WorkerId(7).to_display_string(), "worker-7");
    assert_eq!(WorkerId(40123).to_display_string(), "worker-40123");
    assert_eq!(u32_to_decimal(4294967295), "4294967295");
}

#[test]
fn worker_thread_type_names() {
    assert_eq!(WorkerThreadType::Classic.name(), "classic");
    assert_eq!(WorkerThreadType::Module.name(), "module");
    assert_eq!(WorkerThreadType::Node.name(), "node");
}
