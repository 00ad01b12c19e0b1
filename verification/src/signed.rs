//! `BitMaskable` for the signed fixed-width integers.
//!
//! The bitwise operators act on the two's-complement representation, so the
//! operations and laws are the same as for the unsigned widths.

use vstd::prelude::*;

use crate::BitMaskable;

verus! {

proof fn i8_laws(v: i8, b: i8)
    by (bit_vector)
    ensures
        ((v | b) | b) == (v | b),
        ((v & !b) & !b) == (v & !b),
        ((v ^ b) ^ b) == v,
        ((v | b) & b) == b,
        ((v & !b) & b) == 0i8,
        (v & 0i8) == 0i8,
        ((v | b) & !b) == (v & !b),
        ((v ^ b) & !b) == (v & !b),
{
}

impl BitMaskable for i8 {
    open spec fn zero_spec() -> i8 {
        0i8
    }

    open spec fn or_spec(self, other: i8) -> i8 {
        self | other
    }

    open spec fn xor_spec(self, other: i8) -> i8 {
        self ^ other
    }

    open spec fn not_spec(self) -> i8 {
        !self
    }

    open spec fn and_spec(self, other: i8) -> i8 {
        self & other
    }

    fn mask(&mut self, mask: i8) {
        *self |= mask;
    }

    fn flip(&mut self, mask: i8) {
        *self ^= mask;
    }

    fn unmask(&mut self, mask: i8) {
        *self &= !mask;
    }

    fn masked(self, mask: i8) -> bool {
        self & mask == mask
    }

    proof fn lemma_mask_idempotent(self, b: i8) {
        i8_laws(self, b);
    }

    proof fn lemma_unmask_idempotent(self, b: i8) {
        i8_laws(self, b);
    }

    proof fn lemma_flip_involution(self, b: i8) {
        i8_laws(self, b);
    }

    proof fn lemma_mask_covers(self, b: i8) {
        i8_laws(self, b);
    }

    proof fn lemma_unmask_clears(self, b: i8) {
        i8_laws(self, b);
    }

    proof fn lemma_masked_zero(self) {
        i8_laws(self, 0i8);
    }

    proof fn lemma_outside_bits_unchanged(self, b: i8) {
        i8_laws(self, b);
    }
}

proof fn i16_laws(v: i16, b: i16)
    by (bit_vector)
    ensures
        ((v | b) | b) == (v | b),
        ((v & !b) & !b) == (v & !b),
        ((v ^ b) ^ b) == v,
        ((v | b) & b) == b,
        ((v & !b) & b) == 0i16,
        (v & 0i16) == 0i16,
        ((v | b) & !b) == (v & !b),
        ((v ^ b) & !b) == (v & !b),
{
}

impl BitMaskable for i16 {
    open spec fn zero_spec() -> i16 {
        0i16
    }

    open spec fn or_spec(self, other: i16) -> i16 {
        self | other
    }

    open spec fn xor_spec(self, other: i16) -> i16 {
        self ^ other
    }

    open spec fn not_spec(self) -> i16 {
        !self
    }

    open spec fn and_spec(self, other: i16) -> i16 {
        self & other
    }

    fn mask(&mut self, mask: i16) {
        *self |= mask;
    }

    fn flip(&mut self, mask: i16) {
        *self ^= mask;
    }

    fn unmask(&mut self, mask: i16) {
        *self &= !mask;
    }

    fn masked(self, mask: i16) -> bool {
        self & mask == mask
    }

    proof fn lemma_mask_idempotent(self, b: i16) {
        i16_laws(self, b);
    }

    proof fn lemma_unmask_idempotent(self, b: i16) {
        i16_laws(self, b);
    }

    proof fn lemma_flip_involution(self, b: i16) {
        i16_laws(self, b);
    }

    proof fn lemma_mask_covers(self, b: i16) {
        i16_laws(self, b);
    }

    proof fn lemma_unmask_clears(self, b: i16) {
        i16_laws(self, b);
    }

    proof fn lemma_masked_zero(self) {
        i16_laws(self, 0i16);
    }

    proof fn lemma_outside_bits_unchanged(self, b: i16) {
        i16_laws(self, b);
    }
}

proof fn i32_laws(v: i32, b: i32)
    by (bit_vector)
    ensures
        ((v | b) | b) == (v | b),
        ((v & !b) & !b) == (v & !b),
        ((v ^ b) ^ b) == v,
        ((v | b) & b) == b,
        ((v & !b) & b) == 0i32,
        (v & 0i32) == 0i32,
        ((v | b) & !b) == (v & !b),
        ((v ^ b) & !b) == (v & !b),
{
}

impl BitMaskable for i32 {
    open spec fn zero_spec() -> i32 {
        0i32
    }

    open spec fn or_spec(self, other: i32) -> i32 {
        self | other
    }

    open spec fn xor_spec(self, other: i32) -> i32 {
        self ^ other
    }

    open spec fn not_spec(self) -> i32 {
        !self
    }

    open spec fn and_spec(self, other: i32) -> i32 {
        self & other
    }

    fn mask(&mut self, mask: i32) {
        *self |= mask;
    }

    fn flip(&mut self, mask: i32) {
        *self ^= mask;
    }

    fn unmask(&mut self, mask: i32) {
        *self &= !mask;
    }

    fn masked(self, mask: i32) -> bool {
        self & mask == mask
    }

    proof fn lemma_mask_idempotent(self, b: i32) {
        i32_laws(self, b);
    }

    proof fn lemma_unmask_idempotent(self, b: i32) {
        i32_laws(self, b);
    }

    proof fn lemma_flip_involution(self, b: i32) {
        i32_laws(self, b);
    }

    proof fn lemma_mask_covers(self, b: i32) {
        i32_laws(self, b);
    }

    proof fn lemma_unmask_clears(self, b: i32) {
        i32_laws(self, b);
    }

    proof fn lemma_masked_zero(self) {
        i32_laws(self, 0i32);
    }

    proof fn lemma_outside_bits_unchanged(self, b: i32) {
        i32_laws(self, b);
    }
}

proof fn i64_laws(v: i64, b: i64)
    by (bit_vector)
    ensures
        ((v | b) | b) == (v | b),
        ((v & !b) & !b) == (v & !b),
        ((v ^ b) ^ b) == v,
        ((v | b) & b) == b,
        ((v & !b) & b) == 0i64,
        (v & 0i64) == 0i64,
        ((v | b) & !b) == (v & !b),
        ((v ^ b) & !b) == (v & !b),
{
}

impl BitMaskable for i64 {
    open spec fn zero_spec() -> i64 {
        0i64
    }

    open spec fn or_spec(self, other: i64) -> i64 {
        self | other
    }

    open spec fn xor_spec(self, other: i64) -> i64 {
        self ^ other
    }

    open spec fn not_spec(self) -> i64 {
        !self
    }

    open spec fn and_spec(self, other: i64) -> i64 {
        self & other
    }

    fn mask(&mut self, mask: i64) {
        *self |= mask;
    }

    fn flip(&mut self, mask: i64) {
        *self ^= mask;
    }

    fn unmask(&mut self, mask: i64) {
        *self &= !mask;
    }

    fn masked(self, mask: i64) -> bool {
        self & mask == mask
    }

    proof fn lemma_mask_idempotent(self, b: i64) {
        i64_laws(self, b);
    }

    proof fn lemma_unmask_idempotent(self, b: i64) {
        i64_laws(self, b);
    }

    proof fn lemma_flip_involution(self, b: i64) {
        i64_laws(self, b);
    }

    proof fn lemma_mask_covers(self, b: i64) {
        i64_laws(self, b);
    }

    proof fn lemma_unmask_clears(self, b: i64) {
        i64_laws(self, b);
    }

    proof fn lemma_masked_zero(self) {
        i64_laws(self, 0i64);
    }

    proof fn lemma_outside_bits_unchanged(self, b: i64) {
        i64_laws(self, b);
    }
}

} // verus!
