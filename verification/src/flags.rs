//! Bit-encoded selection of lute standard-library modules.
//!
//! A [`LuteStdLib`] value is a pure, fixed-width bit set: each of the nine
//! optional modules owns one bit at a stable offset, and combining two
//! selections is bit-parallel set algebra. Equality is structural over the
//! bit pattern; no operation here fails or has side effects.

use vstd::prelude::*;
use crate::modules::LuteModule;

verus! {

/// Bit mask covering exactly the nine assigned module bits (offsets 0 to 8).
pub const LUTE_MODULE_MASK: u32 = 0x1FF;

/// A set of lute standard-library modules, one bit per module.
#[derive(Copy, Clone, Debug, PartialEq, Eq, Structural, PartialOrd, Ord, Hash)]
pub struct LuteStdLib(u32);

impl View for LuteStdLib {
    type V = u32;

    closed spec fn view(&self) -> u32 {
        self.0
    }
}

impl LuteStdLib {
    /// The empty selection: no modules. Identity element for `union`,
    /// absorbing element for `intersect`.
    pub fn none() -> (r: LuteStdLib)
        ensures
            r@ == 0u32,
    {
        LuteStdLib(0)
    }

    /// Every bit set, including bits reserved for future module assignments.
    /// Absorbing for `union`, identity for `intersect`. The name marks the
    /// opt-in: any module bit assigned in the future silently becomes
    /// enabled for callers holding this value, so prefer an explicit union
    /// of module flags in configuration that must stay stable.
    pub fn all_with_reserved() -> (r: LuteStdLib)
        ensures
            r@ == 0xFFFF_FFFFu32,
    {
        LuteStdLib(0xFFFF_FFFF)
    }

    /// The single-module selection holding exactly `m`'s bit.
    pub fn module(m: LuteModule) -> (r: LuteStdLib)
        ensures
            r@ == m.spec_bit(),
    {
        LuteStdLib(m.bit())
    }

    /// The raw bit pattern of the selection.
    pub fn bits(self) -> (r: u32)
        ensures
            r == self@,
    {
        self.0
    }

    /// Overlap test: true iff `self` and `lib` share at least one bit.
    ///
    /// This is deliberately not a subset test. Module flags are single-bit,
    /// so for the intended query "does this selection include module M" the
    /// overlap test coincides with the subset test; on a multi-bit argument
    /// it answers "is any of these modules selected".
    pub fn contains(self, lib: LuteStdLib) -> (r: bool)
        ensures
            r == ((self@ & lib@) != 0u32),
    {
        (self.0 & lib.0) != 0
    }

    /// Set union: every module selected in either operand.
    pub fn union(self, other: LuteStdLib) -> (r: LuteStdLib)
        ensures
            r@ == (self@ | other@),
    {
        LuteStdLib(self.0 | other.0)
    }

    /// Set intersection: the modules selected in both operands.
    pub fn intersect(self, other: LuteStdLib) -> (r: LuteStdLib)
        ensures
            r@ == (self@ & other@),
    {
        LuteStdLib(self.0 & other.0)
    }

    /// Symmetric difference: the modules selected in exactly one operand.
    pub fn symmetric_difference(self, other: LuteStdLib) -> (r: LuteStdLib)
        ensures
            r@ == (self@ ^ other@),
    {
        LuteStdLib(self.0 ^ other.0)
    }

    /// In-place form of `union`.
    pub fn union_with(&mut self, other: LuteStdLib)
        ensures
            final(self)@ == (old(self)@ | other@),
    {
        self.0 = self.0 | other.0;
    }

    /// In-place form of `intersect`.
    pub fn intersect_with(&mut self, other: LuteStdLib)
        ensures
            final(self)@ == (old(self)@ & other@),
    {
        self.0 = self.0 & other.0;
    }

    /// In-place form of `symmetric_difference`.
    pub fn symmetric_difference_with(&mut self, other: LuteStdLib)
        ensures
            final(self)@ == (old(self)@ ^ other@),
    {
        self.0 = self.0 ^ other.0;
    }
}

/// `union` is commutative: `a.union(b)` and `b.union(a)` are the same
/// selection, for all selections `a` and `b`.
pub proof fn lemma_union_commutative(a: LuteStdLib, b: LuteStdLib)
    ensures
        (a@ | b@) == (b@ | a@),
{
    let x = a@;
    let y = b@;
    assert((x | y) == (y | x)) by (bit_vector);
}

/// `union` is associative, for all selections `a`, `b` and `c`.
pub proof fn lemma_union_associative(a: LuteStdLib, b: LuteStdLib, c: LuteStdLib)
    ensures
        ((a@ | b@) | c@) == (a@ | (b@ | c@)),
{
    let x = a@;
    let y = b@;
    let z = c@;
    assert(((x | y) | z) == (x | (y | z))) by (bit_vector);
}

/// `intersect` is commutative: `a.intersect(b)` and `b.intersect(a)` are the
/// same selection, for all selections `a` and `b`.
pub proof fn lemma_intersect_commutative(a: LuteStdLib, b: LuteStdLib)
    ensures
        (a@ & b@) == (b@ & a@),
{
    let x = a@;
    let y = b@;
    assert((x & y) == (y & x)) by (bit_vector);
}

/// `intersect` is associative, for all selections `a`, `b` and `c`.
pub proof fn lemma_intersect_associative(a: LuteStdLib, b: LuteStdLib, c: LuteStdLib)
    ensures
        ((a@ & b@) & c@) == (a@ & (b@ & c@)),
{
    let x = a@;
    let y = b@;
    let z = c@;
    assert(((x & y) & z) == (x & (y & z))) by (bit_vector);
}

/// `symmetric_difference` is commutative, for all selections `a` and `b`.
pub proof fn lemma_symmetric_difference_commutative(a: LuteStdLib, b: LuteStdLib)
    ensures
        (a@ ^ b@) == (b@ ^ a@),
{
    let x = a@;
    let y = b@;
    assert((x ^ y) == (y ^ x)) by (bit_vector);
}

/// The empty selection is the identity of `union`: `a.union(none())` is `a`,
/// for every selection `a`.
pub proof fn lemma_union_empty_identity(a: LuteStdLib)
    ensures
        (a@ | 0u32) == a@,
{
    let x = a@;
    assert((x | 0u32) == x) by (bit_vector);
}

/// The all-bits selection is the identity of `intersect`:
/// `a.intersect(all_with_reserved())` is `a`, for every selection `a`.
pub proof fn lemma_intersect_all_identity(a: LuteStdLib)
    ensures
        (a@ & 0xFFFF_FFFFu32) == a@,
{
    let x = a@;
    assert((x & 0xFFFF_FFFFu32) == x) by (bit_vector);
}

} // verus!
