//! `BitMaskable` for `bool`, the one-bit container.
//!
//! For a single bit, or is disjunction, exclusive or is inequality, and is
//! conjunction, and the complement is negation.  The laws need no bit-level
//! reasoning: they are propositional facts.

use vstd::prelude::*;

use crate::BitMaskable;

verus! {

impl BitMaskable for bool {
    open spec fn zero_spec() -> bool {
        false
    }

    open spec fn or_spec(self, other: bool) -> bool {
        self || other
    }

    open spec fn xor_spec(self, other: bool) -> bool {
        self != other
    }

    open spec fn not_spec(self) -> bool {
        !self
    }

    open spec fn and_spec(self, other: bool) -> bool {
        self && other
    }

    fn mask(&mut self, mask: bool) {
        *self = *self || mask;
    }

    fn flip(&mut self, mask: bool) {
        *self = *self != mask;
    }

    fn unmask(&mut self, mask: bool) {
        *self = *self && !mask;
    }

    fn masked(self, mask: bool) -> bool {
        (self && mask) == mask
    }

    proof fn lemma_mask_idempotent(self, b: bool) {
    }

    proof fn lemma_unmask_idempotent(self, b: bool) {
    }

    proof fn lemma_flip_involution(self, b: bool) {
    }

    proof fn lemma_mask_covers(self, b: bool) {
    }

    proof fn lemma_unmask_clears(self, b: bool) {
    }

    proof fn lemma_masked_zero(self) {
    }

    proof fn lemma_outside_bits_unchanged(self, b: bool) {
    }
}

} // verus!
