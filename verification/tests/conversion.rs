use debug_utils::convert::RawLabel;
use debug_utils::convert::RawObjectInfo;
use debug_utils::convert::RawRecord;
use debug_utils::message::Message;
use debug_utils::message::MessageLabel;
use debug_utils::message::ObjectNameInfo;

fn empty_record() -> RawRecord {
    RawRecord {
        message_severity: 0,
        message_type: 0,
        message_id_number: 0,
        message_id_name: String::new(),
        message: String::new(),
        queue_labels: Vec::new(),
        cmd_buf_labels: Vec::new(),
        objects: Vec::new(),
    }
}

#[test]
fn label_with_name_is_copied() {
    let raw = RawLabel { name: Some("region".to_string()), color: [1, 2, 3, 4] };
    let label = MessageLabel::from_raw(&raw);
    assert_eq!(label.name, "region");
    assert_eq!(label.color, [1, 2, 3, 4]);
}

#[test]
fn label_with_null_name_becomes_empty_text() {
    let raw = RawLabel { name: None, color: [9, 8, 7, 6] };
    let label = MessageLabel::from_raw(&raw);
    assert_eq!(label.name, "");
    assert_eq!(label.color, [9, 8, 7, 6]);
}

#[test]
fn object_fields_are_copied() {
    let raw = RawObjectInfo {
        object_type: 26,
        object_handle: 0xdead,
        object_name: Some("buffer".to_string()),
    };
    let info = ObjectNameInfo::from_raw(&raw);
    assert_eq!(info.ty, 26);
    assert_eq!(info.handle, 0xdead);
    assert_eq!(info.name, "buffer");
}

#[test]
fn object_with_null_name_becomes_empty_text() {
    let raw = RawObjectInfo { object_type: 3, object_handle: 77, object_name: None };
    let info = ObjectNameInfo::from_raw(&raw);
    assert_eq!(info.ty, 3);
    assert_eq!(info.handle, 77);
    assert_eq!(info.name, "");
}

#[test]
fn record_arrays_keep_length_and_order() {
    let mut raw = empty_record();
    raw.message_severity = 0x100;
    raw.message_type = 0x2;
    raw.message_id_number = -42;
    raw.message_id_name = "VUID-test".to_string();
    raw.message = "something went wrong".to_string();
    raw.queue_labels = vec![
        RawLabel { name: Some("first".to_string()), color: [1, 0, 0, 0] },
        RawLabel { name: None, color: [2, 0, 0, 0] },
    ];
    raw.cmd_buf_labels = vec![RawLabel { name: Some("copy".to_string()), color: [3, 0, 0, 0] }];
    raw.objects = vec![
        RawObjectInfo { object_type: 1, object_handle: 10, object_name: Some("a".to_string()) },
        RawObjectInfo { object_type: 2, object_handle: 20, object_name: None },
    ];

    let msg = Message::from_raw(&raw);

    assert_eq!(msg.severity.bits(), 0x100);
    assert_eq!(msg.ty.bits(), 0x2);
    assert_eq!(msg.id_number, -42);
    assert_eq!(msg.id_name, "VUID-test");
    assert_eq!(msg.description, "something went wrong");

    assert_eq!(msg.queue_labels.len(), 2);
    assert_eq!(msg.queue_labels[0].name, "first");
    assert_eq!(msg.queue_labels[0].color, [1, 0, 0, 0]);
    assert_eq!(msg.queue_labels[1].name, "");
    assert_eq!(msg.queue_labels[1].color, [2, 0, 0, 0]);

    assert_eq!(msg.command_buffer_labels.len(), 1);
    assert_eq!(msg.command_buffer_labels[0].name, "copy");
    assert_eq!(msg.command_buffer_labels[0].color, [3, 0, 0, 0]);

    assert_eq!(msg.objects.len(), 2);
    assert_eq!(msg.objects[0].ty, 1);
    assert_eq!(msg.objects[0].handle, 10);
    assert_eq!(msg.objects[0].name, "a");
    assert_eq!(msg.objects[1].ty, 2);
    assert_eq!(msg.objects[1].handle, 20);
    assert_eq!(msg.objects[1].name, "");
}

#[test]
fn empty_arrays_convert_to_empty_sequences() {
    let raw = empty_record();
    let msg = Message::from_raw(&raw);
    assert_eq!(msg.queue_labels.len(), 0);
    assert_eq!(msg.command_buffer_labels.len(), 0);
    assert_eq!(msg.objects.len(), 0);
    assert_eq!(msg.id_name, "");
    assert_eq!(msg.description, "");
}
