//! The callback handle: the lifecycle object that owns one registration.
//!
//! A handle is created by a successful registration and owns the token the
//! foreign layer handed out. Releasing the handle consumes it, so the
//! deregistration entry point is called exactly once per handle and a
//! released handle cannot be touched again: the terminal state of the
//! lifecycle is enforced by ownership.

use vstd::prelude::*;

use crate::filter::MessageFilter;
use crate::flags::SEVERITY_ERROR;
use crate::flags::SEVERITY_WARNING;
use crate::flags::TYPE_GENERAL;
use crate::flags::TYPE_VALIDATION;
use crate::layer::ForeignLayer;
use crate::layer::Registration;
use crate::message::Message;

verus! {

/// Why creating a callback handle can fail.
#[derive(Copy, Clone, Debug, PartialEq, Eq, Structural)]
pub enum DebugCallbackCreationError {
    /// The owning resource was created without the debug capability, so no
    /// registration call can be made.
    MissingExtension,
}

impl DebugCallbackCreationError {
    /// A short account of the failure.
    pub fn description(&self) -> (r: &'static str)
        ensures
            r@ == "the debug capability was not enabled on the owning resource"@,
    {
        "the debug capability was not enabled on the owning resource"
    }
}

/// A live registration with the foreign layer. Dropping the handle without
/// releasing it leaves the registration dangling, so the value must be
/// kept until `release` is called.
#[derive(Debug)]
#[must_use]
pub struct DebugCallback {
    token: u64,
}

impl DebugCallback {
    /// The registration token this handle owns.
    pub closed spec fn spec_token(self) -> u64 {
        self.token
    }

    /// The registration token this handle owns.
    pub fn token(&self) -> (r: u64)
        ensures
            r == self.spec_token(),
    {
        self.token
    }

    /// Registers a callback with the foreign layer.
    ///
    /// Without the debug capability this fails at once, before any foreign
    /// call: the layer is left untouched and the error says what was
    /// missing. With the capability it makes exactly one registration
    /// call, carrying the filter's two masks, and returns the handle that
    /// owns the fresh token.
    pub fn new(
        layer: &mut ForeignLayer,
        capability_enabled: bool,
        filter: MessageFilter,
    ) -> (r: Result<DebugCallback, DebugCallbackCreationError>)
        requires
            old(layer).wf(),
            old(layer).spec_can_register(),
        ensures
            final(layer).wf(),
            !capability_enabled ==> {
                &&& r is Err
                &&& r->Err_0 == DebugCallbackCreationError::MissingExtension
                &&& *final(layer) == *old(layer)
            },
            capability_enabled ==> {
                &&& r is Ok
                &&& !old(layer).spec_active(r->Ok_0.spec_token())
                &&& final(layer).spec_active(r->Ok_0.spec_token())
                &&& final(layer).spec_registrations() == old(layer).spec_registrations().push(
                    Registration {
                        token: r->Ok_0.spec_token(),
                        severity_mask: filter.severity@,
                        type_mask: filter.types@,
                    },
                )
                &&& final(layer).spec_register_calls() == old(layer).spec_register_calls() + 1
                &&& final(layer).spec_deregister_calls() == old(layer).spec_deregister_calls()
                &&& final(layer).spec_inject_calls() == old(layer).spec_inject_calls()
                &&& final(layer).spec_next_token() == old(layer).spec_next_token() + 1
            },
    {
        if !capability_enabled {
            return Err(DebugCallbackCreationError::MissingExtension);
        }
        let severity_mask = filter.severity.bits();
        let type_mask = filter.types.bits();
        let token = layer.create_messenger(severity_mask, type_mask);
        Ok(DebugCallback { token })
    }

    /// Registers a callback with the errors-and-warnings preset filter:
    /// the same contract as `new`, with the masks pinned to the preset.
    pub fn errors_and_warnings(
        layer: &mut ForeignLayer,
        capability_enabled: bool,
    ) -> (r: Result<DebugCallback, DebugCallbackCreationError>)
        requires
            old(layer).wf(),
            old(layer).spec_can_register(),
        ensures
            final(layer).wf(),
            !capability_enabled ==> {
                &&& r is Err
                &&& r->Err_0 == DebugCallbackCreationError::MissingExtension
                &&& *final(layer) == *old(layer)
            },
            capability_enabled ==> {
                &&& r is Ok
                &&& !old(layer).spec_active(r->Ok_0.spec_token())
                &&& final(layer).spec_active(r->Ok_0.spec_token())
                &&& final(layer).spec_registrations() == old(layer).spec_registrations().push(
                    Registration {
                        token: r->Ok_0.spec_token(),
                        severity_mask: SEVERITY_WARNING | SEVERITY_ERROR,
                        type_mask: TYPE_VALIDATION | TYPE_GENERAL,
                    },
                )
                &&& final(layer).spec_register_calls() == old(layer).spec_register_calls() + 1
                &&& final(layer).spec_deregister_calls() == old(layer).spec_deregister_calls()
                &&& final(layer).spec_inject_calls() == old(layer).spec_inject_calls()
                &&& final(layer).spec_next_token() == old(layer).spec_next_token() + 1
            },
    {
        DebugCallback::new(layer, capability_enabled, MessageFilter::errors_and_warnings())
    }

    /// Releases the handle: exactly one deregistration call, after which
    /// the token routes nothing. Consuming the handle makes the released
    /// state terminal — no second release can be written.
    pub fn release(self, layer: &mut ForeignLayer)
        requires
            old(layer).wf(),
            old(layer).spec_active(self.spec_token()),
            old(layer).spec_deregister_calls() < u64::MAX,
        ensures
            final(layer).wf(),
            !final(layer).spec_active(self.spec_token()),
            forall|t: u64|
                t != self.spec_token() ==> final(layer).spec_active(t) == old(
                    layer,
                ).spec_active(t),
            final(layer).spec_register_calls() == old(layer).spec_register_calls(),
            final(layer).spec_deregister_calls() == old(layer).spec_deregister_calls() + 1,
            final(layer).spec_inject_calls() == old(layer).spec_inject_calls(),
    {
        layer.destroy_messenger(self.token);
    }

    /// Hands a caller-built record to the foreign layer's manual injection
    /// entry point. The injected record bypasses the filters: it is handed
    /// to every registered token, this handle's among them.
    pub fn submit_debug_message(&self, layer: &mut ForeignLayer, message: &Message) -> (receivers:
        Vec<u64>)
        requires
            old(layer).spec_active(self.spec_token()),
            old(layer).spec_inject_calls() < u64::MAX,
        ensures
            final(layer).spec_registrations() == old(layer).spec_registrations(),
            final(layer).spec_register_calls() == old(layer).spec_register_calls(),
            final(layer).spec_deregister_calls() == old(layer).spec_deregister_calls(),
            final(layer).spec_inject_calls() == old(layer).spec_inject_calls() + 1,
            old(layer).wf() ==> final(layer).wf(),
            receivers@.contains(self.spec_token()),
            receivers@.len() == old(layer).spec_registrations().len(),
            forall|i: int|
                0 <= i < receivers@.len() ==> receivers@[i] == (#[trigger] old(
                    layer,
                ).spec_registrations()[i]).token,
    {
        let receivers = layer.inject_message(message);
        proof {
            let w = choose|w: int|
                0 <= w < old(layer).spec_registrations().len() && (#[trigger] old(
                    layer,
                ).spec_registrations()[w]).token == self.spec_token();
            assert(receivers@[w] == self.spec_token());
        }
        receivers
    }
}

} // verus!
