//! Leaf `0x4000_0001`, register `eax`: the paravirtual features of the hypervisor interface.

use vstd::prelude::*;
use crate::flags::is_single_bit;

verus! {

/// The leaf that reports this set.
pub const LEAF: u32 = 0x4000_0001;

pub const KVM_FEATURE_PV_SEND_IPI: u32 = 1 << 11;

/// The flag of the set is a single bit.
pub proof fn lemma_flags_distinct()
    by (bit_vector)
    ensures
        is_single_bit(KVM_FEATURE_PV_SEND_IPI),
{
}

} // verus!
