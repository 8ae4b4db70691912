//! The decisions made inside the dispatch trampoline.
//!
//! The trampoline is the fixed-signature function the foreign layer calls
//! on an unspecified thread. Its unsafe shell — recovering the user-logic
//! capsule from the context pointer, reading the foreign record, fencing
//! the user call against unwinding — cannot be verified; the decisions it
//! takes can, and they live here: whether an event reaches a token at all,
//! what record the user logic is shown, and the fixed status handed back
//! to the foreign caller whatever the user logic did.

use vstd::prelude::*;

use crate::convert::RawRecord;
use crate::convert::message_converted;
use crate::layer::ForeignLayer;
use crate::message::Message;

verus! {

/// The status the trampoline returns to the foreign layer: the value that
/// tells it not to abort the triggering operation.
pub const CONTINUE_STATUS: u32 = 0;

/// What the trampoline hands back after invoking user logic: always the
/// continue status, whether or not the user logic failed. A failure is
/// swallowed at this boundary and never crosses into the foreign layer.
pub fn trampoline_return_status(_user_logic_failed: bool) -> (r: u32)
    ensures
        r == CONTINUE_STATUS,
{
    CONTINUE_STATUS
}

/// Replays one dispatch against the layer model: if the layer still
/// routes the record's masks to the token, user logic is shown the
/// converted record; if not — in particular once the token's handle has
/// been released — user logic is not reached and there is nothing to
/// show.
pub fn dispatch_event(layer: &ForeignLayer, token: u64, raw: &RawRecord) -> (r: Option<Message>)
    ensures
        match r {
            Some(m) => {
                &&& layer.spec_routes(token, raw.message_severity, raw.message_type)
                &&& message_converted(m, *raw)
            },
            None => !layer.spec_routes(token, raw.message_severity, raw.message_type),
        },
{
    if layer.routes(token, raw.message_severity, raw.message_type) {
        Some(Message::from_raw(raw))
    } else {
        None
    }
}

/// A token the layer no longer holds is routed nothing: replaying a
/// captured dispatch after release cannot reach user logic.
pub proof fn lemma_inactive_token_not_routed(
    layer: ForeignLayer,
    token: u64,
    severity_bits: u32,
    type_bits: u32,
)
    requires
        !layer.spec_active(token),
    ensures
        !layer.spec_routes(token, severity_bits, type_bits),
{
    crate::layer::lemma_routes_requires_active(layer, token, severity_bits, type_bits);
}

} // verus!
