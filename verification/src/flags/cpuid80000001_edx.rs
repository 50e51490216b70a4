//! Leaf `0x8000_0001`, register `edx`: the extended baseline features.

use vstd::prelude::*;
use crate::flags::is_single_bit;

verus! {

/// The leaf that reports this set.
pub const LEAF: u32 = 0x8000_0001;

pub const SYSCALL: u32 = 1 << 11;

pub const NX: u32 = 1 << 20;

pub const GBPAGES: u32 = 1 << 26;

pub const RDTSC: u32 = 1 << 27;

pub const LM: u32 = 1 << 29;

/// Every flag of the set is a single bit, and the flags stand here in
/// strictly rising order, so no two of them name the same bit.
pub proof fn lemma_flags_distinct()
    by (bit_vector)
    ensures
        is_single_bit(SYSCALL),
        is_single_bit(NX),
        is_single_bit(GBPAGES),
        is_single_bit(RDTSC),
        is_single_bit(LM),
        SYSCALL < NX < GBPAGES < RDTSC < LM,
{
}

} // verus!
