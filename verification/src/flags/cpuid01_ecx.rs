//! Leaf `0x0000_0001`, register `ecx`: the baseline features that postdate the first register.

use vstd::prelude::*;
use crate::flags::is_single_bit;

verus! {

/// The leaf that reports this set.
pub const LEAF: u32 = 0x0000_0001;

pub const SSE3: u32 = 1 << 0;

pub const PCLMULQDQ: u32 = 1 << 1;

pub const DTES64: u32 = 1 << 2;

pub const MONITOR: u32 = 1 << 3;

pub const DS_CPL: u32 = 1 << 4;

pub const VMX: u32 = 1 << 5;

pub const SMX: u32 = 1 << 6;

pub const EIST: u32 = 1 << 7;

pub const TM2: u32 = 1 << 8;

pub const SSSE3: u32 = 1 << 9;

pub const CNXT_ID: u32 = 1 << 10;

pub const SDBG: u32 = 1 << 11;

pub const FMA: u32 = 1 << 12;

pub const CMPXCHG16B: u32 = 1 << 13;

pub const XTPRUC: u32 = 1 << 14;

pub const PDCM: u32 = 1 << 15;

pub const PCID: u32 = 1 << 17;

pub const DCA: u32 = 1 << 18;

pub const SSE4_1: u32 = 1 << 19;

pub const SSE4_2: u32 = 1 << 20;

pub const X2APIC: u32 = 1 << 21;

pub const MOVBE: u32 = 1 << 22;

pub const POPCNT: u32 = 1 << 23;

pub const TSC_DEADLINE: u32 = 1 << 24;

pub const AESNI: u32 = 1 << 25;

pub const XSAVE: u32 = 1 << 26;

pub const OSXSAVE: u32 = 1 << 27;

pub const AVX: u32 = 1 << 28;

pub const F16C: u32 = 1 << 29;

pub const RDRAND: u32 = 1 << 30;

/// Every flag of the set is a single bit, and the flags stand here in
/// strictly rising order, so no two of them name the same bit.
pub proof fn lemma_flags_distinct()
    by (bit_vector)
    ensures
        is_single_bit(SSE3),
        is_single_bit(PCLMULQDQ),
        is_single_bit(DTES64),
        is_single_bit(MONITOR),
        is_single_bit(DS_CPL),
        is_single_bit(VMX),
        is_single_bit(SMX),
        is_single_bit(EIST),
        is_single_bit(TM2),
        is_single_bit(SSSE3),
        is_single_bit(CNXT_ID),
        is_single_bit(SDBG),
        is_single_bit(FMA),
        is_single_bit(CMPXCHG16B),
        is_single_bit(XTPRUC),
        is_single_bit(PDCM),
        is_single_bit(PCID),
        is_single_bit(DCA),
        is_single_bit(SSE4_1),
        is_single_bit(SSE4_2),
        is_single_bit(X2APIC),
        is_single_bit(MOVBE),
        is_single_bit(POPCNT),
        is_single_bit(TSC_DEADLINE),
        is_single_bit(AESNI),
        is_single_bit(XSAVE),
        is_single_bit(OSXSAVE),
        is_single_bit(AVX),
        is_single_bit(F16C),
        is_single_bit(RDRAND),
        SSE3 < PCLMULQDQ < DTES64 < MONITOR < DS_CPL < VMX < SMX < EIST < TM2 < SSSE3
            < CNXT_ID < SDBG < FMA < CMPXCHG16B < XTPRUC < PDCM < PCID < DCA < SSE4_1 < SSE4_2
            < X2APIC < MOVBE < POPCNT < TSC_DEADLINE < AESNI < XSAVE < OSXSAVE < AVX < F16C
            < RDRAND,
{
}

} // verus!
