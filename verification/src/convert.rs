//! Conversion from the foreign record layout to the safe event record.
//!
//! The foreign layer describes one event with raw bitmasks, C-style text
//! fields and three counted arrays. Once the unsafe boundary code has read
//! those bytes into the plain values of [`RawRecord`] — a missing text
//! pointer becoming `None` — the functions here build the owned
//! [`Message`], copying every entry of every array in its original order
//! and turning each missing name into an empty text value.

use vstd::prelude::*;

use crate::flags::MessageSeverity;
use crate::flags::MessageType;
use crate::message::Message;
use crate::message::MessageLabel;
use crate::message::ObjectNameInfo;

verus! {

/// One label entry as the foreign record carries it: the name pointer is
/// either absent or a text value already read from the foreign bytes.
pub struct RawLabel {
    /// The label's name, or `None` for a null name pointer.
    pub name: Option<String>,
    /// The bit patterns of the four colour components.
    pub color: [u32; 4],
}

/// One object entry as the foreign record carries it.
pub struct RawObjectInfo {
    /// The foreign type tag.
    pub object_type: u32,
    /// The foreign handle.
    pub object_handle: u64,
    /// The object's name, or `None` for a null name pointer.
    pub object_name: Option<String>,
}

/// The foreign event record with every pointer already resolved to plain
/// values: the two always-present text fields as text, each counted array
/// as a list of exactly its declared length.
pub struct RawRecord {
    /// The raw severity bitmask of the event.
    pub message_severity: u32,
    /// The raw category bitmask of the event.
    pub message_type: u32,
    /// The numeric id of the event.
    pub message_id_number: i32,
    /// The event's id in text form; always present.
    pub message_id_name: String,
    /// The description of the event; always present.
    pub message: String,
    /// The labels active on the queue.
    pub queue_labels: Vec<RawLabel>,
    /// The labels active in the command recording.
    pub cmd_buf_labels: Vec<RawLabel>,
    /// The objects the event refers to.
    pub objects: Vec<RawObjectInfo>,
}

/// The text an optional foreign name decodes to: its own characters, or no
/// characters at all for a null pointer.
pub open spec fn name_view(name: Option<String>) -> Seq<char> {
    match name {
        Some(s) => s@,
        None => Seq::<char>::empty(),
    }
}

/// The label `l` is the converted form of the raw entry `raw`.
pub open spec fn label_converted(l: MessageLabel, raw: RawLabel) -> bool {
    &&& l.name@ == name_view(raw.name)
    &&& l.color == raw.color
}

/// The object info `o` is the converted form of the raw entry `raw`.
pub open spec fn object_converted(o: ObjectNameInfo, raw: RawObjectInfo) -> bool {
    &&& o.ty == raw.object_type
    &&& o.handle == raw.object_handle
    &&& o.name@ == name_view(raw.object_name)
}

/// The message `m` is the converted form of the whole raw record `raw`:
/// masks wrapped, text copied, and each array turned into a sequence of
/// the same length whose entries match the source entries in order.
pub open spec fn message_converted(m: Message, raw: RawRecord) -> bool {
    &&& m.severity@ == raw.message_severity
    &&& m.ty@ == raw.message_type
    &&& m.id_number == raw.message_id_number
    &&& m.id_name@ == raw.message_id_name@
    &&& m.description@ == raw.message@
    &&& m.queue_labels@.len() == raw.queue_labels@.len()
    &&& forall|i: int|
        0 <= i < raw.queue_labels@.len() ==> label_converted(
            #[trigger] m.queue_labels@[i],
            raw.queue_labels@[i],
        )
    &&& m.command_buffer_labels@.len() == raw.cmd_buf_labels@.len()
    &&& forall|i: int|
        0 <= i < raw.cmd_buf_labels@.len() ==> label_converted(
            #[trigger] m.command_buffer_labels@[i],
            raw.cmd_buf_labels@[i],
        )
    &&& m.objects@.len() == raw.objects@.len()
    &&& forall|i: int|
        0 <= i < raw.objects@.len() ==> object_converted(
            #[trigger] m.objects@[i],
            raw.objects@[i],
        )
}

fn text_or_empty(name: &Option<String>) -> (r: String)
    ensures
        r@ == name_view(*name),
{
    match name {
        Some(s) => s.clone(),
        None => String::new(),
    }
}

impl MessageLabel {
    /// Converts one raw label entry; a missing name becomes empty text.
    pub fn from_raw(raw: &RawLabel) -> (r: MessageLabel)
        ensures
            label_converted(r, *raw),
    {
        MessageLabel { name: text_or_empty(&raw.name), color: raw.color }
    }
}

impl ObjectNameInfo {
    /// Converts one raw object entry; a missing name becomes empty text.
    pub fn from_raw(raw: &RawObjectInfo) -> (r: ObjectNameInfo)
        ensures
            object_converted(r, *raw),
    {
        ObjectNameInfo {
            ty: raw.object_type,
            handle: raw.object_handle,
            name: text_or_empty(&raw.object_name),
        }
    }
}

impl Message {
    /// Converts a whole raw record into the safe event record. Every array
    /// entry is copied, in its original order; nothing past the declared
    /// lengths is touched.
    pub fn from_raw(raw: &RawRecord) -> (r: Message)
        ensures
            message_converted(r, *raw),
    {
        let mut queue_labels: Vec<MessageLabel> = Vec::new();
        let mut i: usize = 0;
        while i < raw.queue_labels.len()
            invariant
                i <= raw.queue_labels@.len(),
                queue_labels@.len() == i as int,
                forall|j: int|
                    0 <= j < i ==> label_converted(
                        #[trigger] queue_labels@[j],
                        raw.queue_labels@[j],
                    ),
            decreases raw.queue_labels@.len() - i,
        {
            queue_labels.push(MessageLabel::from_raw(&raw.queue_labels[i]));
            i += 1;
        }
        let mut command_buffer_labels: Vec<MessageLabel> = Vec::new();
        let mut i: usize = 0;
        while i < raw.cmd_buf_labels.len()
            invariant
                i <= raw.cmd_buf_labels@.len(),
                command_buffer_labels@.len() == i as int,
                forall|j: int|
                    0 <= j < i ==> label_converted(
                        #[trigger] command_buffer_labels@[j],
                        raw.cmd_buf_labels@[j],
                    ),
            decreases raw.cmd_buf_labels@.len() - i,
        {
            command_buffer_labels.push(MessageLabel::from_raw(&raw.cmd_buf_labels[i]));
            i += 1;
        }
        let mut objects: Vec<ObjectNameInfo> = Vec::new();
        let mut i: usize = 0;
        while i < raw.objects.len()
            invariant
                i <= raw.objects@.len(),
                objects@.len() == i as int,
                forall|j: int|
                    0 <= j < i ==> object_converted(#[trigger] objects@[j], raw.objects@[j]),
            decreases raw.objects@.len() - i,
        {
            objects.push(ObjectNameInfo::from_raw(&raw.objects[i]));
            i += 1;
        }
        Message {
            severity: MessageSeverity::from_bits(raw.message_severity),
            ty: MessageType::from_bits(raw.message_type),
            id_number: raw.message_id_number,
            id_name: raw.message_id_name.clone(),
            description: raw.message.clone(),
            queue_labels,
            command_buffer_labels,
            objects,
        }
    }
}

/// A null name pointer in a label entry converts to empty text, never to a
/// failure.
pub proof fn lemma_null_label_name_empty(l: MessageLabel, raw: RawLabel)
    requires
        label_converted(l, raw),
        raw.name is None,
    ensures
        l.name@.len() == 0,
{
}

/// A null name pointer in an object entry converts to empty text, never to
/// a failure.
pub proof fn lemma_null_object_name_empty(o: ObjectNameInfo, raw: RawObjectInfo)
    requires
        object_converted(o, raw),
        raw.object_name is None,
    ensures
        o.name@.len() == 0,
{
}

} // verus!
