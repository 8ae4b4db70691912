//! A safe, verified bridge for a foreign diagnostic-callback channel.
//!
//! A validation layer raises diagnostic events through a C-style callback.
//! This crate models the pieces of that channel that can be reasoned about:
//! typed bitmask sets for event severity and category, a filter built from
//! them, a safe owned record of one event, the conversion from the foreign
//! record layout into that safe record, the registration lifecycle of a
//! callback handle, and the fixed "continue" status that the dispatch
//! trampoline must always hand back to the foreign caller.

pub mod convert;
pub mod dispatch;
pub mod filter;
pub mod flags;
pub mod handle;
pub mod layer;
pub mod message;
