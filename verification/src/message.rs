//! The safe, owned record of one diagnostic event.
//!
//! The foreign layer hands the bridge a pointer-based record that is valid
//! only for the duration of one dispatch call. The types here hold the same
//! data as plain owned values, safe for user logic to read freely while the
//! callback runs. A label's colour travels as the four raw bit patterns of
//! its components; the bridge never interprets them.

use vstd::prelude::*;

use crate::flags::MessageSeverity;
use crate::flags::MessageType;

verus! {

/// A named, coloured marker inserted around a region of command recording
/// or on a queue for diagnostic grouping.
#[derive(Clone)]
pub struct MessageLabel {
    /// The label's name; empty when the foreign record carried none.
    pub name: String,
    /// The bit patterns of the label's four colour components.
    pub color: [u32; 4],
}

/// Diagnostic metadata identifying a foreign resource that an event refers
/// to.
#[derive(Clone)]
pub struct ObjectNameInfo {
    /// The foreign type tag of the resource.
    pub ty: u32,
    /// The foreign handle of the resource.
    pub handle: u64,
    /// The resource's name; empty when the foreign record carried none.
    pub name: String,
}

/// One diagnostic event as user logic sees it.
pub struct Message {
    /// The categories of the event.
    pub ty: MessageType,
    /// The severities of the event.
    pub severity: MessageSeverity,
    /// The numeric id of the event.
    pub id_number: i32,
    /// The event's id in text form.
    pub id_name: String,
    /// The human-readable description of the event.
    pub description: String,
    /// The labels active on the queue, in the foreign record's order.
    pub queue_labels: Vec<MessageLabel>,
    /// The labels active in the command recording, in the foreign record's
    /// order.
    pub command_buffer_labels: Vec<MessageLabel>,
    /// The resources the event refers to, in the foreign record's order.
    pub objects: Vec<ObjectNameInfo>,
}

} // verus!
