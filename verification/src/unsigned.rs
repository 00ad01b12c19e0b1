//! `BitMaskable` for the unsigned fixed-width integers.

use vstd::prelude::*;

use crate::BitMaskable;

verus! {

proof fn u8_laws(v: u8, b: u8)
    by (bit_vector)
    ensures
        ((v | b) | b) == (v | b),
        ((v & !b) & !b) == (v & !b),
        ((v ^ b) ^ b) == v,
        ((v | b) & b) == b,
        ((v & !b) & b) == 0u8,
        (v & 0u8) == 0u8,
        ((v | b) & !b) == (v & !b),
        ((v ^ b) & !b) == (v & !b),
{
}

impl BitMaskable for u8 {
    open spec fn zero_spec() -> u8 {
        0u8
    }

    open spec fn or_spec(self, other: u8) -> u8 {
        self | other
    }

    open spec fn xor_spec(self, other: u8) -> u8 {
        self ^ other
    }

    open spec fn not_spec(self) -> u8 {
        !self
    }

    open spec fn and_spec(self, other: u8) -> u8 {
        self & other
    }

    fn mask(&mut self, mask: u8) {
        *self |= mask;
    }

    fn flip(&mut self, mask: u8) {
        *self ^= mask;
    }

    fn unmask(&mut self, mask: u8) {
        *self &= !mask;
    }

    fn masked(self, mask: u8) -> bool {
        self & mask == mask
    }

    proof fn lemma_mask_idempotent(self, b: u8) {
        u8_laws(self, b);
    }

    proof fn lemma_unmask_idempotent(self, b: u8) {
        u8_laws(self, b);
    }

    proof fn lemma_flip_involution(self, b: u8) {
        u8_laws(self, b);
    }

    proof fn lemma_mask_covers(self, b: u8) {
        u8_laws(self, b);
    }

    proof fn lemma_unmask_clears(self, b: u8) {
        u8_laws(self, b);
    }

    proof fn lemma_masked_zero(self) {
        u8_laws(self, 0u8);
    }

    proof fn lemma_outside_bits_unchanged(self, b: u8) {
        u8_laws(self, b);
    }
}

proof fn u16_laws(v: u16, b: u16)
    by (bit_vector)
    ensures
        ((v | b) | b) == (v | b),
        ((v & !b) & !b) == (v & !b),
        ((v ^ b) ^ b) == v,
        ((v | b) & b) == b,
        ((v & !b) & b) == 0u16,
        (v & 0u16) == 0u16,
        ((v | b) & !b) == (v & !b),
        ((v ^ b) & !b) == (v & !b),
{
}

impl BitMaskable for u16 {
    open spec fn zero_spec() -> u16 {
        0u16
    }

    open spec fn or_spec(self, other: u16) -> u16 {
        self | other
    }

    open spec fn xor_spec(self, other: u16) -> u16 {
        self ^ other
    }

    open spec fn not_spec(self) -> u16 {
        !self
    }

    open spec fn and_spec(self, other: u16) -> u16 {
        self & other
    }

    fn mask(&mut self, mask: u16) {
        *self |= mask;
    }

    fn flip(&mut self, mask: u16) {
        *self ^= mask;
    }

    fn unmask(&mut self, mask: u16) {
        *self &= !mask;
    }

    fn masked(self, mask: u16) -> bool {
        self & mask == mask
    }

    proof fn lemma_mask_idempotent(self, b: u16) {
        u16_laws(self, b);
    }

    proof fn lemma_unmask_idempotent(self, b: u16) {
        u16_laws(self, b);
    }

    proof fn lemma_flip_involution(self, b: u16) {
        u16_laws(self, b);
    }

    proof fn lemma_mask_covers(self, b: u16) {
        u16_laws(self, b);
    }

    proof fn lemma_unmask_clears(self, b: u16) {
        u16_laws(self, b);
    }

    proof fn lemma_masked_zero(self) {
        u16_laws(self, 0u16);
    }

    proof fn lemma_outside_bits_unchanged(self, b: u16) {
        u16_laws(self, b);
    }
}

proof fn u32_laws(v: u32, b: u32)
    by (bit_vector)
    ensures
        ((v | b) | b) == (v | b),
        ((v & !b) & !b) == (v & !b),
        ((v ^ b) ^ b) == v,
        ((v | b) & b) == b,
        ((v & !b) & b) == 0u32,
        (v & 0u32) == 0u32,
        ((v | b) & !b) == (v & !b),
        ((v ^ b) & !b) == (v & !b),
{
}

impl BitMaskable for u32 {
    open spec fn zero_spec() -> u32 {
        0u32
    }

    open spec fn or_spec(self, other: u32) -> u32 {
        self | other
    }

    open spec fn xor_spec(self, other: u32) -> u32 {
        self ^ other
    }

    open spec fn not_spec(self) -> u32 {
        !self
    }

    open spec fn and_spec(self, other: u32) -> u32 {
        self & other
    }

    fn mask(&mut self, mask: u32) {
        *self |= mask;
    }

    fn flip(&mut self, mask: u32) {
        *self ^= mask;
    }

    fn unmask(&mut self, mask: u32) {
        *self &= !mask;
    }

    fn masked(self, mask: u32) -> bool {
        self & mask == mask
    }

    proof fn lemma_mask_idempotent(self, b: u32) {
        u32_laws(self, b);
    }

    proof fn lemma_unmask_idempotent(self, b: u32) {
        u32_laws(self, b);
    }

    proof fn lemma_flip_involution(self, b: u32) {
        u32_laws(self, b);
    }

    proof fn lemma_mask_covers(self, b: u32) {
        u32_laws(self, b);
    }

    proof fn lemma_unmask_clears(self, b: u32) {
        u32_laws(self, b);
    }

    proof fn lemma_masked_zero(self) {
        u32_laws(self, 0u32);
    }

    proof fn lemma_outside_bits_unchanged(self, b: u32) {
        u32_laws(self, b);
    }
}

proof fn u64_laws(v: u64, b: u64)
    by (bit_vector)
    ensures
        ((v | b) | b) == (v | b),
        ((v & !b) & !b) == (v & !b),
        ((v ^ b) ^ b) == v,
        ((v | b) & b) == b,
        ((v & !b) & b) == 0u64,
        (v & 0u64) == 0u64,
        ((v | b) & !b) == (v & !b),
        ((v ^ b) & !b) == (v & !b),
{
}

impl BitMaskable for u64 {
    open spec fn zero_spec() -> u64 {
        0u64
    }

    open spec fn or_spec(self, other: u64) -> u64 {
        self | other
    }

    open spec fn xor_spec(self, other: u64) -> u64 {
        self ^ other
    }

    open spec fn not_spec(self) -> u64 {
        !self
    }

    open spec fn and_spec(self, other: u64) -> u64 {
        self & other
    }

    fn mask(&mut self, mask: u64) {
        *self |= mask;
    }

    fn flip(&mut self, mask: u64) {
        *self ^= mask;
    }

    fn unmask(&mut self, mask: u64) {
        *self &= !mask;
    }

    fn masked(self, mask: u64) -> bool {
        self & mask == mask
    }

    proof fn lemma_mask_idempotent(self, b: u64) {
        u64_laws(self, b);
    }

    proof fn lemma_unmask_idempotent(self, b: u64) {
        u64_laws(self, b);
    }

    proof fn lemma_flip_involution(self, b: u64) {
        u64_laws(self, b);
    }

    proof fn lemma_mask_covers(self, b: u64) {
        u64_laws(self, b);
    }

    proof fn lemma_unmask_clears(self, b: u64) {
        u64_laws(self, b);
    }

    proof fn lemma_masked_zero(self) {
        u64_laws(self, 0u64);
    }

    proof fn lemma_outside_bits_unchanged(self, b: u64) {
        u64_laws(self, b);
    }
}

} // verus!
