//! Typed bitmask sets for event severity and event category.
//!
//! Both sets offer the same algebra: union, intersection and symmetric
//! difference, each with an in-place form that is observably equivalent to
//! the two-operand form followed by assignment.

use vstd::prelude::*;

verus! {

/// Bit for the lowest, most chatty severity.
pub const SEVERITY_VERBOSE: u32 = 0x00000001;
/// Bit for informational events.
pub const SEVERITY_INFO: u32 = 0x00000010;
/// Bit for warnings.
pub const SEVERITY_WARNING: u32 = 0x00000100;
/// Bit for errors.
pub const SEVERITY_ERROR: u32 = 0x00001000;
/// All severity bits together.
pub const SEVERITY_ALL: u32 = SEVERITY_VERBOSE | SEVERITY_INFO | SEVERITY_WARNING | SEVERITY_ERROR;

/// Bit for general, uncategorised events.
pub const TYPE_GENERAL: u32 = 0x00000001;
/// Bit for events raised by validation of API usage.
pub const TYPE_VALIDATION: u32 = 0x00000002;
/// Bit for performance findings.
pub const TYPE_PERFORMANCE: u32 = 0x00000004;
/// All category bits together.
pub const TYPE_ALL: u32 = TYPE_GENERAL | TYPE_VALIDATION | TYPE_PERFORMANCE;

proof fn lemma_or_comm(x: u32, y: u32)
    ensures
        (x | y) == (y | x),
{
    assert((x | y) == (y | x)) by (bit_vector);
}

proof fn lemma_or_assoc(x: u32, y: u32, z: u32)
    ensures
        ((x | y) | z) == (x | (y | z)),
{
    assert(((x | y) | z) == (x | (y | z))) by (bit_vector);
}

proof fn lemma_or_self(x: u32)
    ensures
        (x | x) == x,
{
    assert((x | x) == x) by (bit_vector);
}

proof fn lemma_and_comm(x: u32, y: u32)
    ensures
        (x & y) == (y & x),
{
    assert((x & y) == (y & x)) by (bit_vector);
}

proof fn lemma_and_assoc(x: u32, y: u32, z: u32)
    ensures
        ((x & y) & z) == (x & (y & z)),
{
    assert(((x & y) & z) == (x & (y & z))) by (bit_vector);
}

proof fn lemma_and_self(x: u32)
    ensures
        (x & x) == x,
{
    assert((x & x) == x) by (bit_vector);
}

proof fn lemma_and_absorb(x: u32, y: u32)
    ensures
        (x & (x & y)) == (x & y),
{
    assert((x & (x & y)) == (x & y)) by (bit_vector);
}

proof fn lemma_xor_via_or_and(x: u32, y: u32)
    ensures
        (x ^ y) == ((x | y) & !(x & y)),
{
    assert((x ^ y) == ((x | y) & !(x & y))) by (bit_vector);
}

proof fn lemma_or_zero(x: u32)
    ensures
        (x | 0) == x,
{
    assert((x | 0) == x) by (bit_vector);
}

proof fn lemma_and_zero(x: u32)
    ensures
        (x & 0) == 0u32,
{
    assert((x & 0) == 0u32) by (bit_vector);
}

proof fn lemma_or_sup(x: u32, a: u32)
    requires
        (x & a) == x,
    ensures
        (x | a) == a,
{
    assert((x & a) == x ==> (x | a) == a) by (bit_vector);
}

/// The set of severities an event may carry. The view of a value is its raw
/// bit pattern; the named constructors below produce the only bits the
/// foreign layer defines.
#[derive(Clone, Copy, Debug, PartialEq, Eq, Structural)]
pub struct MessageSeverity {
    bits: u32,
}

impl View for MessageSeverity {
    type V = u32;

    closed spec fn view(&self) -> u32 {
        self.bits
    }
}

impl MessageSeverity {
    /// The value holds no bits outside the named severities.
    pub open spec fn well_formed(self) -> bool {
        (self@ & SEVERITY_ALL) == self@
    }

    pub closed spec fn spec_union(self, other: Self) -> Self {
        MessageSeverity { bits: self.bits | other.bits }
    }

    pub closed spec fn spec_intersect(self, other: Self) -> Self {
        MessageSeverity { bits: self.bits & other.bits }
    }

    pub closed spec fn spec_xor(self, other: Self) -> Self {
        MessageSeverity { bits: self.bits ^ other.bits }
    }

    /// Two severity sets with the same bits are the same value.
    pub proof fn lemma_view_injective(a: Self, b: Self)
        ensures
            (a == b) <==> (a@ == b@),
    {
    }

    /// The empty severity set.
    pub fn none() -> (r: Self)
        ensures
            r@ == 0u32,
            r.well_formed(),
    {
        proof {
            lemma_and_zero(SEVERITY_ALL);
            lemma_and_comm(0u32, SEVERITY_ALL);
        }
        MessageSeverity { bits: 0 }
    }

    /// The set of every named severity.
    pub fn all() -> (r: Self)
        ensures
            r@ == SEVERITY_ALL,
            r.well_formed(),
    {
        proof {
            lemma_and_self(SEVERITY_ALL);
        }
        MessageSeverity { bits: SEVERITY_ALL }
    }

    /// The singleton verbose set.
    pub fn verbose() -> (r: Self)
        ensures
            r@ == SEVERITY_VERBOSE,
            r.well_formed(),
    {
        proof {
            assert((SEVERITY_VERBOSE & SEVERITY_ALL) == SEVERITY_VERBOSE) by (bit_vector);
        }
        MessageSeverity { bits: SEVERITY_VERBOSE }
    }

    /// The singleton info set.
    pub fn info() -> (r: Self)
        ensures
            r@ == SEVERITY_INFO,
            r.well_formed(),
    {
        proof {
            assert((SEVERITY_INFO & SEVERITY_ALL) == SEVERITY_INFO) by (bit_vector);
        }
        MessageSeverity { bits: SEVERITY_INFO }
    }

    /// The singleton warning set.
    pub fn warning() -> (r: Self)
        ensures
            r@ == SEVERITY_WARNING,
            r.well_formed(),
    {
        proof {
            assert((SEVERITY_WARNING & SEVERITY_ALL) == SEVERITY_WARNING) by (bit_vector);
        }
        MessageSeverity { bits: SEVERITY_WARNING }
    }

    /// The singleton error set.
    pub fn error() -> (r: Self)
        ensures
            r@ == SEVERITY_ERROR,
            r.well_formed(),
    {
        proof {
            assert((SEVERITY_ERROR & SEVERITY_ALL) == SEVERITY_ERROR) by (bit_vector);
        }
        MessageSeverity { bits: SEVERITY_ERROR }
    }

    /// Wraps a raw severity mask handed over by the foreign layer.
    pub fn from_bits(bits: u32) -> (r: Self)
        ensures
            r@ == bits,
    {
        MessageSeverity { bits }
    }

    /// Hands the raw mask back for the foreign registration structure.
    pub fn bits(&self) -> (r: u32)
        ensures
            r == self@,
    {
        self.bits
    }

    /// Set union.
    pub fn union(self, other: Self) -> (r: Self)
        ensures
            r == self.spec_union(other),
            r@ == (self@ | other@),
    {
        MessageSeverity { bits: self.bits | other.bits }
    }

    /// Set intersection.
    pub fn intersect(self, other: Self) -> (r: Self)
        ensures
            r == self.spec_intersect(other),
            r@ == (self@ & other@),
    {
        MessageSeverity { bits: self.bits & other.bits }
    }

    /// Symmetric difference: the severities in exactly one of the operands.
    pub fn symmetric_difference(self, other: Self) -> (r: Self)
        ensures
            r == self.spec_xor(other),
            r@ == (self@ ^ other@),
    {
        MessageSeverity { bits: self.bits ^ other.bits }
    }

    /// In-place union, equivalent to `*self = self.union(other)`.
    pub fn union_assign(&mut self, other: Self)
        ensures
            *final(self) == old(self).spec_union(other),
            final(self)@ == (old(self)@ | other@),
    {
        self.bits = self.bits | other.bits;
    }

    /// In-place intersection, equivalent to `*self = self.intersect(other)`.
    pub fn intersect_assign(&mut self, other: Self)
        ensures
            *final(self) == old(self).spec_intersect(other),
            final(self)@ == (old(self)@ & other@),
    {
        self.bits = self.bits & other.bits;
    }

    /// In-place symmetric difference, equivalent to
    /// `*self = self.symmetric_difference(other)`.
    pub fn symmetric_difference_assign(&mut self, other: Self)
        ensures
            *final(self) == old(self).spec_xor(other),
            final(self)@ == (old(self)@ ^ other@),
    {
        self.bits = self.bits ^ other.bits;
    }

    /// Union is commutative.
    pub proof fn lemma_union_commutative(a: Self, b: Self)
        ensures
            a.spec_union(b) == b.spec_union(a),
    {
        lemma_or_comm(a.bits, b.bits);
    }

    /// Union is associative.
    pub proof fn lemma_union_associative(a: Self, b: Self, c: Self)
        ensures
            a.spec_union(b).spec_union(c) == a.spec_union(b.spec_union(c)),
    {
        lemma_or_assoc(a.bits, b.bits, c.bits);
    }

    /// Union is idempotent.
    pub proof fn lemma_union_idempotent(a: Self)
        ensures
            a.spec_union(a) == a,
    {
        lemma_or_self(a.bits);
    }

    /// Intersection is commutative.
    pub proof fn lemma_intersect_commutative(a: Self, b: Self)
        ensures
            a.spec_intersect(b) == b.spec_intersect(a),
    {
        lemma_and_comm(a.bits, b.bits);
    }

    /// Intersection is associative.
    pub proof fn lemma_intersect_associative(a: Self, b: Self, c: Self)
        ensures
            a.spec_intersect(b).spec_intersect(c) == a.spec_intersect(b.spec_intersect(c)),
    {
        lemma_and_assoc(a.bits, b.bits, c.bits);
    }

    /// Intersecting a set with itself gives the set back.
    pub proof fn lemma_intersect_idempotent(a: Self)
        ensures
            a.spec_intersect(a) == a,
    {
        lemma_and_self(a.bits);
    }

    /// Intersecting with an intersection that already involves the same set
    /// changes nothing.
    pub proof fn lemma_intersect_absorption(a: Self, b: Self)
        ensures
            a.spec_intersect(a.spec_intersect(b)) == a.spec_intersect(b),
    {
        lemma_and_absorb(a.bits, b.bits);
    }

    /// The symmetric difference holds the bits set in exactly one operand:
    /// it is the union with the intersection masked away.
    pub proof fn lemma_xor_exactly_one(a: Self, b: Self)
        ensures
            a.spec_xor(b)@ == ((a@ | b@) & !(a@ & b@)),
    {
        lemma_xor_via_or_and(a.bits, b.bits);
    }

    /// The empty set is the identity of union.
    pub proof fn lemma_none_union_identity(a: Self, n: Self)
        requires
            n@ == 0u32,
        ensures
            a.spec_union(n) == a,
    {
        lemma_or_zero(a.bits);
    }

    /// The empty set absorbs under intersection.
    pub proof fn lemma_none_intersect_absorbing(a: Self, n: Self)
        requires
            n@ == 0u32,
        ensures
            a.spec_intersect(n)@ == 0u32,
    {
        lemma_and_zero(a.bits);
    }

    /// The full set absorbs under union, for sets of named severities.
    pub proof fn lemma_all_union_absorbing(a: Self, u: Self)
        requires
            a.well_formed(),
            u@ == SEVERITY_ALL,
        ensures
            a.spec_union(u)@ == SEVERITY_ALL,
    {
        lemma_or_sup(a.bits, SEVERITY_ALL);
    }

    /// The full set is the identity of intersection, for sets of named
    /// severities.
    pub proof fn lemma_all_intersect_identity(a: Self, u: Self)
        requires
            a.well_formed(),
            u@ == SEVERITY_ALL,
        ensures
            a.spec_intersect(u) == a,
    {
    }
}

/// The set of categories an event may carry. The view of a value is its raw
/// bit pattern; the named constructors below produce the only bits the
/// foreign layer defines.
#[derive(Clone, Copy, Debug, PartialEq, Eq, Structural)]
pub struct MessageType {
    bits: u32,
}

impl View for MessageType {
    type V = u32;

    closed spec fn view(&self) -> u32 {
        self.bits
    }
}

impl MessageType {
    /// The value holds no bits outside the named categories.
    pub open spec fn well_formed(self) -> bool {
        (self@ & TYPE_ALL) == self@
    }

    pub closed spec fn spec_union(self, other: Self) -> Self {
        MessageType { bits: self.bits | other.bits }
    }

    pub closed spec fn spec_intersect(self, other: Self) -> Self {
        MessageType { bits: self.bits & other.bits }
    }

    pub closed spec fn spec_xor(self, other: Self) -> Self {
        MessageType { bits: self.bits ^ other.bits }
    }

    /// Two category sets with the same bits are the same value.
    pub proof fn lemma_view_injective(a: Self, b: Self)
        ensures
            (a == b) <==> (a@ == b@),
    {
    }

    /// The empty category set.
    pub fn none() -> (r: Self)
        ensures
            r@ == 0u32,
            r.well_formed(),
    {
        proof {
            lemma_and_zero(TYPE_ALL);
            lemma_and_comm(0u32, TYPE_ALL);
        }
        MessageType { bits: 0 }
    }

    /// The set of every named category.
    pub fn all() -> (r: Self)
        ensures
            r@ == TYPE_ALL,
            r.well_formed(),
    {
        proof {
            lemma_and_self(TYPE_ALL);
        }
        MessageType { bits: TYPE_ALL }
    }

    /// The singleton general set.
    pub fn general() -> (r: Self)
        ensures
            r@ == TYPE_GENERAL,
            r.well_formed(),
    {
        proof {
            assert((TYPE_GENERAL & TYPE_ALL) == TYPE_GENERAL) by (bit_vector);
        }
        MessageType { bits: TYPE_GENERAL }
    }

    /// The singleton validation set.
    pub fn validation() -> (r: Self)
        ensures
            r@ == TYPE_VALIDATION,
            r.well_formed(),
    {
        proof {
            assert((TYPE_VALIDATION & TYPE_ALL) == TYPE_VALIDATION) by (bit_vector);
        }
        MessageType { bits: TYPE_VALIDATION }
    }

    /// The singleton performance set.
    pub fn performance() -> (r: Self)
        ensures
            r@ == TYPE_PERFORMANCE,
            r.well_formed(),
    {
        proof {
            assert((TYPE_PERFORMANCE & TYPE_ALL) == TYPE_PERFORMANCE) by (bit_vector);
        }
        MessageType { bits: TYPE_PERFORMANCE }
    }

    /// Wraps a raw category mask handed over by the foreign layer.
    pub fn from_bits(bits: u32) -> (r: Self)
        ensures
            r@ == bits,
    {
        MessageType { bits }
    }

    /// Hands the raw mask back for the foreign registration structure.
    pub fn bits(&self) -> (r: u32)
        ensures
            r == self@,
    {
        self.bits
    }

    /// Set union.
    pub fn union(self, other: Self) -> (r: Self)
        ensures
            r == self.spec_union(other),
            r@ == (self@ | other@),
    {
        MessageType { bits: self.bits | other.bits }
    }

    /// Set intersection.
    pub fn intersect(self, other: Self) -> (r: Self)
        ensures
            r == self.spec_intersect(other),
            r@ == (self@ & other@),
    {
        MessageType { bits: self.bits & other.bits }
    }

    /// Symmetric difference: the categories in exactly one of the operands.
    pub fn symmetric_difference(self, other: Self) -> (r: Self)
        ensures
            r == self.spec_xor(other),
            r@ == (self@ ^ other@),
    {
        MessageType { bits: self.bits ^ other.bits }
    }

    /// In-place union, equivalent to `*self = self.union(other)`.
    pub fn union_assign(&mut self, other: Self)
        ensures
            *final(self) == old(self).spec_union(other),
            final(self)@ == (old(self)@ | other@),
    {
        self.bits = self.bits | other.bits;
    }

    /// In-place intersection, equivalent to `*self = self.intersect(other)`.
    pub fn intersect_assign(&mut self, other: Self)
        ensures
            *final(self) == old(self).spec_intersect(other),
            final(self)@ == (old(self)@ & other@),
    {
        self.bits = self.bits & other.bits;
    }

    /// In-place symmetric difference, equivalent to
    /// `*self = self.symmetric_difference(other)`.
    pub fn symmetric_difference_assign(&mut self, other: Self)
        ensures
            *final(self) == old(self).spec_xor(other),
            final(self)@ == (old(self)@ ^ other@),
    {
        self.bits = self.bits ^ other.bits;
    }

    /// Union is commutative.
    pub proof fn lemma_union_commutative(a: Self, b: Self)
        ensures
            a.spec_union(b) == b.spec_union(a),
    {
        lemma_or_comm(a.bits, b.bits);
    }

    /// Union is associative.
    pub proof fn lemma_union_associative(a: Self, b: Self, c: Self)
        ensures
            a.spec_union(b).spec_union(c) == a.spec_union(b.spec_union(c)),
    {
        lemma_or_assoc(a.bits, b.bits, c.bits);
    }

    /// Union is idempotent.
    pub proof fn lemma_union_idempotent(a: Self)
        ensures
            a.spec_union(a) == a,
    {
        lemma_or_self(a.bits);
    }

    /// Intersection is commutative.
    pub proof fn lemma_intersect_commutative(a: Self, b: Self)
        ensures
            a.spec_intersect(b) == b.spec_intersect(a),
    {
        lemma_and_comm(a.bits, b.bits);
    }

    /// Intersection is associative.
    pub proof fn lemma_intersect_associative(a: Self, b: Self, c: Self)
        ensures
            a.spec_intersect(b).spec_intersect(c) == a.spec_intersect(b.spec_intersect(c)),
    {
        lemma_and_assoc(a.bits, b.bits, c.bits);
    }

    /// Intersecting a set with itself gives the set back.
    pub proof fn lemma_intersect_idempotent(a: Self)
        ensures
            a.spec_intersect(a) == a,
    {
        lemma_and_self(a.bits);
    }

    /// Intersecting with an intersection that already involves the same set
    /// changes nothing.
    pub proof fn lemma_intersect_absorption(a: Self, b: Self)
        ensures
            a.spec_intersect(a.spec_intersect(b)) == a.spec_intersect(b),
    {
        lemma_and_absorb(a.bits, b.bits);
    }

    /// The symmetric difference holds the bits set in exactly one operand:
    /// it is the union with the intersection masked away.
    pub proof fn lemma_xor_exactly_one(a: Self, b: Self)
        ensures
            a.spec_xor(b)@ == ((a@ | b@) & !(a@ & b@)),
    {
        lemma_xor_via_or_and(a.bits, b.bits);
    }

    /// The empty set is the identity of union.
    pub proof fn lemma_none_union_identity(a: Self, n: Self)
        requires
            n@ == 0u32,
        ensures
            a.spec_union(n) == a,
    {
        lemma_or_zero(a.bits);
    }

    /// The empty set absorbs under intersection.
    pub proof fn lemma_none_intersect_absorbing(a: Self, n: Self)
        requires
            n@ == 0u32,
        ensures
            a.spec_intersect(n)@ == 0u32,
    {
        lemma_and_zero(a.bits);
    }

    /// The full set absorbs under union, for sets of named categories.
    pub proof fn lemma_all_union_absorbing(a: Self, u: Self)
        requires
            a.well_formed(),
            u@ == TYPE_ALL,
        ensures
            a.spec_union(u)@ == TYPE_ALL,
    {
        lemma_or_sup(a.bits, TYPE_ALL);
    }

    /// The full set is the identity of intersection, for sets of named
    /// categories.
    pub proof fn lemma_all_intersect_identity(a: Self, u: Self)
        requires
            a.well_formed(),
            u@ == TYPE_ALL,
        ensures
            a.spec_intersect(u) == a,
    {
    }
}

} // verus!
