//! Leaf `0x0000_0006`, register `ecx`: thermal and power management.

use vstd::prelude::*;
use crate::flags::is_single_bit;

verus! {

/// The leaf that reports this set.
pub const LEAF: u32 = 0x0000_0006;

pub const HCF: u32 = 1 << 0;

/// The flag of the set is a single bit.
pub proof fn lemma_flags_distinct()
    by (bit_vector)
    ensures
        is_single_bit(HCF),
{
}

} // verus!
