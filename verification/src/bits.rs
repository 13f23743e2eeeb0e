//! Mask algebra on 32-bit registers.
//!
//! Every update of a control register in this crate either sets or clears
//! the bits of a mask. The two operations, and the facts that relate them,
//! live here.

use vstd::prelude::*;

verus! {

/// The register value `bits` with every bit of `mask` set.
pub open spec fn with_set(bits: u32, mask: u32) -> u32 {
    bits | mask
}

/// The register value `bits` with every bit of `mask` cleared.
pub open spec fn with_cleared(bits: u32, mask: u32) -> u32 {
    bits & !mask
}

/// The bits in which `before` and `after` differ.
pub open spec fn changed(before: u32, after: u32) -> u32 {
    before ^ after
}

/// Whether every bit of `mask` is set in `bits`.
pub open spec fn all_set(bits: u32, mask: u32) -> bool {
    bits & mask == mask
}

/// Whether every bit of `mask` is clear in `bits`.
pub open spec fn all_clear(bits: u32, mask: u32) -> bool {
    bits & mask == 0
}

/// Sets the bits of `mask` in `bits`.
pub fn set_bits(bits: u32, mask: u32) -> (r: u32)
    ensures
        r == with_set(bits, mask),
{
    bits | mask
}

/// Clears the bits of `mask` in `bits`.
pub fn clear_bits(bits: u32, mask: u32) -> (r: u32)
    ensures
        r == with_cleared(bits, mask),
{
    bits & !mask
}

/// Setting a mask leaves all its bits set and changes no bit outside it; where
/// the bits were clear before, the change is the mask itself.
pub proof fn lemma_set_exact(bits: u32, mask: u32)
    by (bit_vector)
    ensures
        all_set(with_set(bits, mask), mask),
        with_set(bits, mask) & !mask == bits & !mask,
        changed(bits, with_set(bits, mask)) & !mask == 0,
        all_clear(bits, mask) ==> changed(bits, with_set(bits, mask)) == mask,
{
}

/// Clearing a mask leaves all its bits clear and changes no bit outside it;
/// where the bits were set before, the change is the mask itself.
pub proof fn lemma_clear_exact(bits: u32, mask: u32)
    by (bit_vector)
    ensures
        all_clear(with_cleared(bits, mask), mask),
        with_cleared(bits, mask) & !mask == bits & !mask,
        changed(bits, with_cleared(bits, mask)) & !mask == 0,
        all_set(bits, mask) ==> changed(bits, with_cleared(bits, mask)) == mask,
{
}

/// Setting or clearing the same mask twice is the same as doing it once.
pub proof fn lemma_idempotent(bits: u32, mask: u32)
    by (bit_vector)
    ensures
        with_set(with_set(bits, mask), mask) == with_set(bits, mask),
        with_cleared(with_cleared(bits, mask), mask) == with_cleared(bits, mask),
{
}

/// Of a set and a clear of the same mask, the later one wins; and the pair
/// restores a register whose bits were already in the state of the later one.
pub proof fn lemma_last_wins(bits: u32, mask: u32)
    by (bit_vector)
    ensures
        with_cleared(with_set(bits, mask), mask) == with_cleared(bits, mask),
        with_set(with_cleared(bits, mask), mask) == with_set(bits, mask),
        all_clear(bits, mask) ==> with_cleared(with_set(bits, mask), mask) == bits,
        all_set(bits, mask) ==> with_set(with_cleared(bits, mask), mask) == bits,
{
}

/// Two resources whose masks share no bit do not disturb each other: the
/// bits of the one survive any update of the other, and the updates commute.
pub proof fn lemma_disjoint_masks_independent(bits: u32, m1: u32, m2: u32)
    by (bit_vector)
    requires
        m1 & m2 == 0,
    ensures
        with_set(bits, m2) & m1 == bits & m1,
        with_cleared(bits, m2) & m1 == bits & m1,
        with_set(with_set(bits, m1), m2) == with_set(with_set(bits, m2), m1),
        with_cleared(with_cleared(bits, m1), m2) == with_cleared(with_cleared(bits, m2), m1),
        with_cleared(with_set(bits, m1), m2) == with_set(with_cleared(bits, m2), m1),
{
}

} // verus!
