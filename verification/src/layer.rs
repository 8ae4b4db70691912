//! An executable model of the foreign layer's registration table.
//!
//! The real validation layer lives behind raw entry points; the bridge can
//! only be specified against a model of what those entry points do. This
//! model keeps the registrations the layer currently holds, counts every
//! call made into each entry point, and decides — exactly as the foreign
//! layer does — whether an event raised with given masks is routed to a
//! registered token. The unsafe boundary code drives the real layer; tests
//! drive this model to observe what the bridge promised.

use vstd::prelude::*;

use crate::message::Message;

verus! {

/// One registration the layer holds: the token it handed out and the two
/// filter masks the callback was registered with.
#[derive(Clone, Copy, Debug, PartialEq, Eq, Structural)]
pub struct Registration {
    /// The registration token.
    pub token: u64,
    /// The severity mask of the registration's filter.
    pub severity_mask: u32,
    /// The category mask of the registration's filter.
    pub type_mask: u32,
}

/// The model of the foreign layer: its registration table and a counter
/// for each entry point.
pub struct ForeignLayer {
    registrations: Vec<Registration>,
    next_token: u64,
    register_calls: u64,
    deregister_calls: u64,
    inject_calls: u64,
}

impl ForeignLayer {
    /// The registrations the layer currently holds, in registration order.
    pub closed spec fn spec_registrations(self) -> Seq<Registration> {
        self.registrations@
    }

    /// The token the next registration will receive.
    pub closed spec fn spec_next_token(self) -> u64 {
        self.next_token
    }

    /// How often the registration entry point has been called.
    pub closed spec fn spec_register_calls(self) -> u64 {
        self.register_calls
    }

    /// How often the deregistration entry point has been called.
    pub closed spec fn spec_deregister_calls(self) -> u64 {
        self.deregister_calls
    }

    /// How often the manual injection entry point has been called.
    pub closed spec fn spec_inject_calls(self) -> u64 {
        self.inject_calls
    }

    /// Every held token was handed out before `next_token`, and no token
    /// is held twice.
    pub closed spec fn wf(self) -> bool {
        &&& forall|i: int|
            0 <= i < self.registrations@.len() ==> (#[trigger] self.registrations@[i]).token
                < self.next_token
        &&& forall|i: int, j: int|
            0 <= i < j < self.registrations@.len() ==> (#[trigger] self.registrations@[i]).token
                != (#[trigger] self.registrations@[j]).token
    }

    /// The token is currently registered.
    pub open spec fn spec_active(self, token: u64) -> bool {
        exists|i: int|
            0 <= i < self.spec_registrations().len() && (#[trigger] self.spec_registrations()[i]).token
                == token
    }

    /// The layer would forward an event with the given masks to the given
    /// token: the token is registered and each mask meets the filter the
    /// registration was made with.
    pub open spec fn spec_routes(self, token: u64, severity_bits: u32, type_bits: u32) -> bool {
        exists|i: int|
            {
                &&& 0 <= i < self.spec_registrations().len()
                &&& (#[trigger] self.spec_registrations()[i]).token == token
                &&& (severity_bits & self.spec_registrations()[i].severity_mask) != 0
                &&& (type_bits & self.spec_registrations()[i].type_mask) != 0
            }
    }

    /// The counters and the token source have room for one more
    /// registration.
    pub open spec fn spec_can_register(self) -> bool {
        &&& self.spec_next_token() < u64::MAX
        &&& self.spec_register_calls() < u64::MAX
    }

    /// A fresh layer: nothing registered, no entry point called yet.
    pub fn new() -> (r: ForeignLayer)
        ensures
            r.wf(),
            r.spec_registrations() == Seq::<Registration>::empty(),
            r.spec_next_token() == 1u64,
            r.spec_register_calls() == 0u64,
            r.spec_deregister_calls() == 0u64,
            r.spec_inject_calls() == 0u64,
    {
        ForeignLayer {
            registrations: Vec::new(),
            next_token: 1,
            register_calls: 0,
            deregister_calls: 0,
            inject_calls: 0,
        }
    }

    /// The registration entry point: records the masks, hands out a fresh
    /// token and counts the call.
    pub fn create_messenger(&mut self, severity_mask: u32, type_mask: u32) -> (token: u64)
        requires
            old(self).wf(),
            old(self).spec_can_register(),
        ensures
            final(self).wf(),
            !old(self).spec_active(token),
            final(self).spec_active(token),
            final(self).spec_registrations() == old(self).spec_registrations().push(
                Registration { token, severity_mask, type_mask },
            ),
            final(self).spec_next_token() == old(self).spec_next_token() + 1,
            final(self).spec_register_calls() == old(self).spec_register_calls() + 1,
            final(self).spec_deregister_calls() == old(self).spec_deregister_calls(),
            final(self).spec_inject_calls() == old(self).spec_inject_calls(),
    {
        let token = self.next_token;
        self.next_token = self.next_token + 1;
        self.register_calls = self.register_calls + 1;
        self.registrations.push(Registration { token, severity_mask, type_mask });
        proof {
            let n = self.spec_registrations().len() as int;
            assert((self.spec_registrations()[n - 1]).token == token);
            assert(self.spec_active(token));
        }
        token
    }

    /// The deregistration entry point: removes the token's registration
    /// and counts the call. The token must be registered; afterwards it no
    /// longer is, and every other token keeps its state.
    pub fn destroy_messenger(&mut self, token: u64)
        requires
            old(self).wf(),
            old(self).spec_active(token),
            old(self).spec_deregister_calls() < u64::MAX,
        ensures
            final(self).wf(),
            !final(self).spec_active(token),
            forall|t: u64|
                t != token ==> final(self).spec_active(t) == old(self).spec_active(t),
            exists|i: int|
                {
                    &&& 0 <= i < old(self).spec_registrations().len()
                    &&& old(self).spec_registrations()[i].token == token
                    &&& final(self).spec_registrations() == old(self).spec_registrations().remove(
                        i,
                    )
                },
            final(self).spec_next_token() == old(self).spec_next_token(),
            final(self).spec_register_calls() == old(self).spec_register_calls(),
            final(self).spec_deregister_calls() == old(self).spec_deregister_calls() + 1,
            final(self).spec_inject_calls() == old(self).spec_inject_calls(),
    {
        let ghost old_regs = self.registrations@;
        let mut idx: usize = 0;
        let mut found: bool = false;
        let mut i: usize = 0;
        while i < self.registrations.len()
            invariant
                i <= self.registrations@.len(),
                self.registrations@ == old_regs,
                !found ==> forall|j: int|
                    0 <= j < i ==> (#[trigger] old_regs[j]).token != token,
                found ==> idx < i && old_regs[idx as int].token == token,
            decreases self.registrations@.len() - i,
        {
            if !found && self.registrations[i].token == token {
                idx = i;
                found = true;
            }
            i += 1;
        }
        assert(found);
        self.registrations.remove(idx);
        self.deregister_calls = self.deregister_calls + 1;
        proof {
            let new_regs = self.spec_registrations();
            assert(old(self).spec_registrations() == old_regs);
            assert(new_regs == old_regs.remove(idx as int));
            old_regs.remove_ensures(idx as int);
            assert forall|j: int| 0 <= j < new_regs.len() implies (#[trigger] new_regs[j]).token
                != token by {
                if j < idx as int {
                    assert(new_regs[j] == old_regs[j]);
                } else {
                    assert(new_regs[j] == old_regs[j + 1]);
                }
            }
            assert forall|t: u64| t != token implies self.spec_active(t) == old(
                self,
            ).spec_active(t) by {
                if old(self).spec_active(t) {
                    let w = choose|w: int|
                        0 <= w < old_regs.len() && (#[trigger] old_regs[w]).token == t;
                    if w < idx as int {
                        assert(new_regs[w].token == t);
                    } else {
                        assert(w != idx as int);
                        assert(new_regs[w - 1] == old_regs[w]);
                        assert(new_regs[w - 1].token == t);
                    }
                    assert(self.spec_active(t));
                }
                if self.spec_active(t) {
                    let w = choose|w: int|
                        0 <= w < new_regs.len() && (#[trigger] new_regs[w]).token == t;
                    if w < idx as int {
                        assert(old_regs[w].token == t);
                    } else {
                        assert(old_regs[w + 1].token == t);
                    }
                    assert(old(self).spec_active(t));
                }
            }
        }
    }

    /// Whether the counters and the token source have room for one more
    /// registration.
    pub fn can_register(&self) -> (r: bool)
        ensures
            r == self.spec_can_register(),
    {
        self.next_token < u64::MAX && self.register_calls < u64::MAX
    }

    /// How often the registration entry point has been called.
    pub fn register_calls(&self) -> (r: u64)
        ensures
            r == self.spec_register_calls(),
    {
        self.register_calls
    }

    /// How often the deregistration entry point has been called.
    pub fn deregister_calls(&self) -> (r: u64)
        ensures
            r == self.spec_deregister_calls(),
    {
        self.deregister_calls
    }

    /// How often the manual injection entry point has been called.
    pub fn inject_calls(&self) -> (r: u64)
        ensures
            r == self.spec_inject_calls(),
    {
        self.inject_calls
    }

    /// Whether the token is currently registered.
    pub fn is_active(&self, token: u64) -> (r: bool)
        ensures
            r == self.spec_active(token),
    {
        let mut r = false;
        let mut i: usize = 0;
        while i < self.registrations.len()
            invariant
                i <= self.registrations@.len(),
                r ==> self.spec_active(token),
                !r ==> forall|j: int|
                    0 <= j < i ==> (#[trigger] self.registrations@[j]).token != token,
            decreases self.registrations@.len() - i,
        {
            if self.registrations[i].token == token {
                proof {
                    assert((self.spec_registrations()[i as int]).token == token);
                }
                r = true;
            }
            i += 1;
        }
        r
    }

    /// Decides, over the registration table, whether an event raised with
    /// the given masks reaches the given token.
    pub fn routes(&self, token: u64, severity_bits: u32, type_bits: u32) -> (r: bool)
        ensures
            r == self.spec_routes(token, severity_bits, type_bits),
    {
        let mut r = false;
        let mut i: usize = 0;
        while i < self.registrations.len()
            invariant
                i <= self.registrations@.len(),
                r ==> self.spec_routes(token, severity_bits, type_bits),
                !r ==> forall|j: int|
                    0 <= j < i ==> !{
                        &&& (#[trigger] self.registrations@[j]).token == token
                        &&& (severity_bits & self.registrations@[j].severity_mask) != 0
                        &&& (type_bits & self.registrations@[j].type_mask) != 0
                    },
            decreases self.registrations@.len() - i,
        {
            let reg = self.registrations[i];
            if reg.token == token && (severity_bits & reg.severity_mask) != 0 && (type_bits
                & reg.type_mask) != 0 {
                proof {
                    assert((self.spec_registrations()[i as int]).token == token);
                    assert(self.spec_routes(token, severity_bits, type_bits));
                }
                r = true;
            }
            i += 1;
        }
        r
    }

    /// The manual injection entry point: counts the call and names the
    /// tokens the injected record is handed to — every registered token,
    /// in registration order, with no filter applied.
    pub fn inject_message(&mut self, _message: &Message) -> (receivers: Vec<u64>)
        requires
            old(self).spec_inject_calls() < u64::MAX,
        ensures
            final(self).spec_registrations() == old(self).spec_registrations(),
            final(self).spec_next_token() == old(self).spec_next_token(),
            final(self).spec_register_calls() == old(self).spec_register_calls(),
            final(self).spec_deregister_calls() == old(self).spec_deregister_calls(),
            final(self).spec_inject_calls() == old(self).spec_inject_calls() + 1,
            old(self).wf() ==> final(self).wf(),
            receivers@.len() == old(self).spec_registrations().len(),
            forall|i: int|
                0 <= i < receivers@.len() ==> receivers@[i] == (#[trigger] old(
                    self,
                ).spec_registrations()[i]).token,
    {
        self.inject_calls = self.inject_calls + 1;
        let mut receivers: Vec<u64> = Vec::new();
        let mut i: usize = 0;
        while i < self.registrations.len()
            invariant
                i <= self.registrations@.len(),
                self.registrations@ == old(self).spec_registrations(),
                receivers@.len() == i as int,
                forall|j: int|
                    0 <= j < i ==> receivers@[j] == (#[trigger] self.registrations@[j]).token,
            decreases self.registrations@.len() - i,
        {
            receivers.push(self.registrations[i].token);
            i += 1;
        }
        receivers
    }
}

/// Routing presupposes registration: a token the layer does not hold
/// receives nothing, whatever the masks.
pub proof fn lemma_routes_requires_active(
    layer: ForeignLayer,
    token: u64,
    severity_bits: u32,
    type_bits: u32,
)
    ensures
        layer.spec_routes(token, severity_bits, type_bits) ==> layer.spec_active(token),
{
}

} // verus!
