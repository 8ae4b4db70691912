use debug_utils::convert::RawObjectInfo;
use debug_utils::convert::RawRecord;
use debug_utils::dispatch::dispatch_event;
use debug_utils::dispatch::trampoline_return_status;
use debug_utils::dispatch::CONTINUE_STATUS;
use debug_utils::filter::MessageFilter;
use debug_utils::flags::MessageSeverity;
use debug_utils::flags::MessageType;
use debug_utils::handle::DebugCallback;
use debug_utils::handle::DebugCallbackCreationError;
use debug_utils::layer::ForeignLayer;
use debug_utils::message::Message;

fn error_record() -> RawRecord {
    RawRecord {
        message_severity: MessageSeverity::error().bits(),
        message_type: MessageType::general().bits(),
        message_id_number: 0,
        message_id_name: "X".to_string(),
        message: "Y".to_string(),
        queue_labels: Vec::new(),
        cmd_buf_labels: Vec::new(),
        objects: vec![RawObjectInfo {
            object_type: 7,
            object_handle: 0x42,
            object_name: Some("O".to_string()),
        }],
    }
}

#[test]
fn missing_capability_makes_no_foreign_call() {
    let mut layer = ForeignLayer::new();
    let result = DebugCallback::new(&mut layer, false, MessageFilter::all());
    assert_eq!(result.unwrap_err(), DebugCallbackCreationError::MissingExtension);
    assert_eq!(layer.register_calls(), 0);
    assert_eq!(layer.deregister_calls(), 0);
    assert_eq!(layer.inject_calls(), 0);
}

#[test]
fn missing_capability_with_preset_constructor() {
    let mut layer = ForeignLayer::new();
    let result = DebugCallback::errors_and_warnings(&mut layer, false);
    assert_eq!(result.unwrap_err(), DebugCallbackCreationError::MissingExtension);
    assert_eq!(layer.register_calls(), 0);
}

#[test]
fn successful_registration_is_one_foreign_call() {
    let mut layer = ForeignLayer::new();
    let handle = DebugCallback::new(&mut layer, true, MessageFilter::all()).unwrap();
    assert_eq!(layer.register_calls(), 1);
    assert_eq!(layer.deregister_calls(), 0);
    assert!(layer.is_active(handle.token()));
    handle.release(&mut layer);
}

#[test]
fn trampoline_returns_continue_whatever_user_logic_did() {
    assert_eq!(trampoline_return_status(false), CONTINUE_STATUS);
    assert_eq!(trampoline_return_status(true), CONTINUE_STATUS);
}

#[test]
fn trampoline_survives_user_logic_that_always_fails() {
    let mut layer = ForeignLayer::new();
    let handle = DebugCallback::new(&mut layer, true, MessageFilter::all()).unwrap();
    let raw = error_record();
    for _ in 0..3 {
        let delivered = dispatch_event(&layer, handle.token(), &raw);
        let user_logic_failed = match delivered {
            Some(_) => true,
            None => false,
        };
        assert!(user_logic_failed);
        assert_eq!(trampoline_return_status(user_logic_failed), CONTINUE_STATUS);
    }
    handle.release(&mut layer);
}

#[test]
fn released_handle_is_deregistered_exactly_once_and_unreachable() {
    let mut layer = ForeignLayer::new();
    let handle = DebugCallback::new(&mut layer, true, MessageFilter::all()).unwrap();
    let token = handle.token();
    let raw = error_record();

    let before = dispatch_event(&layer, token, &raw);
    assert!(before.is_some());

    handle.release(&mut layer);
    assert_eq!(layer.deregister_calls(), 1);
    assert!(!layer.is_active(token));

    let replay = dispatch_event(&layer, token, &raw);
    assert!(replay.is_none());
}

#[test]
fn end_to_end_error_event_reaches_user_logic_intact() {
    let mut layer = ForeignLayer::new();
    let handle = DebugCallback::new(&mut layer, true, MessageFilter::all()).unwrap();

    let observed: Message = dispatch_event(&layer, handle.token(), &error_record()).unwrap();

    assert_eq!(observed.severity, MessageSeverity::error());
    assert_ne!(observed.ty.intersect(MessageType::general()), MessageType::none());
    assert_eq!(observed.id_name, "X");
    assert_eq!(observed.description, "Y");
    assert_eq!(observed.objects.len(), 1);
    assert_eq!(observed.objects[0].name, "O");
    assert_eq!(observed.objects[0].handle, 0x42);
    assert_eq!(observed.objects[0].ty, 7);

    handle.release(&mut layer);
}

#[test]
fn filtered_out_event_is_not_routed() {
    let mut layer = ForeignLayer::new();
    let handle = DebugCallback::new(&mut layer, true, MessageFilter::none()).unwrap();
    let delivered = dispatch_event(&layer, handle.token(), &error_record());
    assert!(delivered.is_none());
    handle.release(&mut layer);
}

#[test]
fn manual_submission_bypasses_the_filter() {
    let mut layer = ForeignLayer::new();
    let handle = DebugCallback::new(&mut layer, true, MessageFilter::none()).unwrap();

    let message = Message::from_raw(&error_record());
    let receivers = handle.submit_debug_message(&mut layer, &message);

    assert_eq!(layer.inject_calls(), 1);
    assert!(receivers.contains(&handle.token()));

    handle.release(&mut layer);
}

#[test]
fn distinct_handles_get_distinct_tokens() {
    let mut layer = ForeignLayer::new();
    let first = DebugCallback::new(&mut layer, true, MessageFilter::all()).unwrap();
    let second = DebugCallback::new(&mut layer, true, MessageFilter::errors_and_warnings()).unwrap();
    let first_token = first.token();
    assert_ne!(first_token, second.token());

    first.release(&mut layer);
    assert!(layer.is_active(second.token()));
    assert!(!layer.is_active(first_token));

    second.release(&mut layer);
    assert_eq!(layer.deregister_calls(), 2);
}

#[test]
fn creation_error_description() {
    let err = DebugCallbackCreationError::MissingExtension;
    assert_eq!(err.description(), "the debug capability was not enabled on the owning resource");
}
