//! The filter a caller hands over at registration time.
//!
//! A filter pairs a severity set with a category set. It is pure
//! configuration: the foreign layer evaluates it when it decides whether to
//! forward an event, and the bridge never re-checks it.

use vstd::prelude::*;

use crate::flags::MessageSeverity;
use crate::flags::MessageType;
use crate::flags::SEVERITY_ALL;
use crate::flags::SEVERITY_ERROR;
use crate::flags::SEVERITY_WARNING;
use crate::flags::TYPE_ALL;
use crate::flags::TYPE_GENERAL;
use crate::flags::TYPE_VALIDATION;

verus! {

/// Decides which events the foreign layer forwards to a registered
/// callback: an event passes when its severity and its category each meet
/// the corresponding set.
#[derive(Clone)]
pub struct MessageFilter {
    /// The categories the callback wants to see.
    pub types: MessageType,
    /// The severities the callback wants to see.
    pub severity: MessageSeverity,
}

impl MessageFilter {
    /// Passes every event: all severities, all categories.
    pub fn all() -> (r: MessageFilter)
        ensures
            r.severity@ == SEVERITY_ALL,
            r.types@ == TYPE_ALL,
    {
        MessageFilter { severity: MessageSeverity::all(), types: MessageType::all() }
    }

    /// Passes no event at all.
    pub fn none() -> (r: MessageFilter)
        ensures
            r.severity@ == 0u32,
            r.types@ == 0u32,
    {
        MessageFilter { severity: MessageSeverity::none(), types: MessageType::none() }
    }

    /// Passes warnings and errors raised by validation or general use,
    /// and nothing else: the severity set holds exactly the warning and
    /// error bits, the category set exactly the validation and general
    /// bits.
    pub fn errors_and_warnings() -> (r: MessageFilter)
        ensures
            r.severity@ == (SEVERITY_WARNING | SEVERITY_ERROR),
            r.types@ == (TYPE_VALIDATION | TYPE_GENERAL),
    {
        MessageFilter {
            severity: MessageSeverity::warning().union(MessageSeverity::error()),
            types: MessageType::validation().union(MessageType::general()),
        }
    }
}

} // verus!
