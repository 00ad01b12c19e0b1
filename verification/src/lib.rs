//! Treat any fixed-width integer (or `bool`) value as a bit-mask container.
//!
//! The [`BitMaskable`] trait offers four primitive operations: set bits
//! (`mask`), toggle bits (`flip`), clear bits (`unmask`), and test whether a
//! set of bits is fully set (`masked`).  It is implemented uniformly for the
//! 8-, 16-, 32- and 64-bit signed and unsigned integers and for `bool`.

use vstd::prelude::*;

mod boolean;
mod signed;
mod unsigned;

verus! {

/// A type whose values can have bit masks applied to them.
///
/// A mask is a value of the same type whose set bits identify which bit
/// positions an operation affects.  Each implementation also supplies spec
/// functions giving the mathematical meaning of its bitwise operators, so that
/// the four operations carry exact contracts, and proves the algebraic laws
/// that every implementation must satisfy.
pub trait BitMaskable: Sized + Copy {
    /// The value with no bits set.
    spec fn zero_spec() -> Self;

    /// Bitwise or: the bits set in either operand.
    spec fn or_spec(self, other: Self) -> Self;

    /// Bitwise exclusive or: the bits set in exactly one operand.
    spec fn xor_spec(self, other: Self) -> Self;

    /// Bitwise complement: every bit toggled.
    spec fn not_spec(self) -> Self;

    /// Bitwise and: the bits set in both operands.
    spec fn and_spec(self, other: Self) -> Self;

    /// Applies a bit mask: sets every bit that is set in `mask`, leaving all
    /// other bits unchanged.
    fn mask(&mut self, mask: Self)
        ensures
            *final(self) == old(self).or_spec(mask),
    ;

    /// Flips the value of a bit mask: toggles every bit that is set in
    /// `mask`, leaving all other bits unchanged.
    fn flip(&mut self, mask: Self)
        ensures
            *final(self) == old(self).xor_spec(mask),
    ;

    /// Removes a bit mask: clears every bit that is set in `mask`, leaving
    /// all other bits unchanged.
    fn unmask(&mut self, mask: Self)
        ensures
            *final(self) == old(self).and_spec(mask.not_spec()),
    ;

    /// Checks whether a certain mask is currently applied: returns true if
    /// and only if every bit set in `mask` is also set in `self`.  The empty
    /// mask is trivially a subset of any value, so `masked` with the all-zero
    /// mask always returns true.
    fn masked(self, mask: Self) -> (r: bool)
        ensures
            r == (self.and_spec(mask) == mask),
    ;

    /// Law: `mask` is idempotent.  Applying the same mask twice yields the
    /// same result as applying it once.
    proof fn lemma_mask_idempotent(self, b: Self)
        ensures
            self.or_spec(b).or_spec(b) == self.or_spec(b),
    ;

    /// Law: `unmask` is idempotent.  Removing the same mask twice yields the
    /// same result as removing it once.
    proof fn lemma_unmask_idempotent(self, b: Self)
        ensures
            self.and_spec(b.not_spec()).and_spec(b.not_spec()) == self.and_spec(b.not_spec()),
    ;

    /// Law: `flip` is an involution.  Flipping the same mask twice restores
    /// the original value exactly.
    proof fn lemma_flip_involution(self, b: Self)
        ensures
            self.xor_spec(b).xor_spec(b) == self,
    ;

    /// Law: after applying mask `b`, every bit of `b` is set, so `masked(b)`
    /// holds.
    proof fn lemma_mask_covers(self, b: Self)
        ensures
            self.or_spec(b).and_spec(b) == b,
    ;

    /// Law: after removing mask `b`, no bit of `b` remains set, so
    /// `masked(b)` fails whenever `b` is non-zero.
    proof fn lemma_unmask_clears(self, b: Self)
        ensures
            self.and_spec(b.not_spec()).and_spec(b) == Self::zero_spec(),
    ;

    /// Law: the empty mask is a subset of every value, so `masked` with the
    /// all-zero mask always returns true.
    proof fn lemma_masked_zero(self)
        ensures
            self.and_spec(Self::zero_spec()) == Self::zero_spec(),
    ;

    /// Law: non-interference.  `mask`, `flip` and `unmask` with mask `b`
    /// never change any bit outside the set bits of `b`: the three clauses
    /// state that the bits outside `b` of the result of each operation equal
    /// the bits outside `b` of the original value.
    proof fn lemma_outside_bits_unchanged(self, b: Self)
        ensures
            self.or_spec(b).and_spec(b.not_spec()) == self.and_spec(b.not_spec()),
            self.xor_spec(b).and_spec(b.not_spec()) == self.and_spec(b.not_spec()),
            self.and_spec(b.not_spec()).and_spec(b.not_spec()) == self.and_spec(b.not_spec()),
    ;
}

/// Applies a bit mask, as a free function: sets every bit of `bits` in
/// `target`, leaving all other bits unchanged.
pub fn mask<B: BitMaskable>(target: &mut B, bits: B)
    ensures
        *final(target) == old(target).or_spec(bits),
{
    target.mask(bits);
}

/// Flips the value of a bit mask, as a free function: toggles every bit of
/// `bits` in `target`, leaving all other bits unchanged.
pub fn flip<B: BitMaskable>(target: &mut B, bits: B)
    ensures
        *final(target) == old(target).xor_spec(bits),
{
    target.flip(bits);
}

/// Removes a bit mask, as a free function: clears every bit of `bits` in
/// `target`, leaving all other bits unchanged.
pub fn unmask<B: BitMaskable>(target: &mut B, bits: B)
    ensures
        *final(target) == old(target).and_spec(bits.not_spec()),
{
    target.unmask(bits);
}

/// Checks whether a certain mask is currently applied, as a free function:
/// returns true if and only if every bit set in `bits` is also set in
/// `target`.
pub fn masked<B: BitMaskable>(target: B, bits: B) -> (r: bool)
    ensures
        r == (target.and_spec(bits) == bits),
{
    target.masked(bits)
}

/// Complement law, for every implementation at once: after `mask(b)` the
/// query `masked(b)` is true, and after a subsequent `unmask(b)` the query
/// `masked(b)` is false provided `b` is non-zero.  Stated over the spec
/// functions that the contracts of `mask`, `unmask` and `masked` use.
pub proof fn lemma_complement<B: BitMaskable>(v: B, b: B)
    ensures
        v.or_spec(b).and_spec(b) == b,
        b != B::zero_spec() ==> v.and_spec(b.not_spec()).and_spec(b) != b,
{
    v.lemma_mask_covers(b);
    v.lemma_unmask_clears(b);
}

} // verus!
