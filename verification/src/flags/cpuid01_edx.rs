//! Leaf `0x0000_0001`, register `edx`: the baseline features.

use vstd::prelude::*;
use crate::flags::is_single_bit;

verus! {

/// The leaf that reports this set.
pub const LEAF: u32 = 0x0000_0001;

pub const FPU: u32 = 1 << 0;

pub const VME: u32 = 1 << 1;

pub const DE: u32 = 1 << 2;

pub const PSE: u32 = 1 << 3;

pub const TSC: u32 = 1 << 4;

pub const MSR: u32 = 1 << 5;

pub const PAE: u32 = 1 << 6;

pub const MCE: u32 = 1 << 7;

pub const CX8: u32 = 1 << 8;

pub const APIC: u32 = 1 << 9;

pub const SEP: u32 = 1 << 11;

pub const MTRR: u32 = 1 << 12;

pub const PGE: u32 = 1 << 13;

pub const MCA: u32 = 1 << 14;

pub const CMOV: u32 = 1 << 15;

pub const PAT: u32 = 1 << 16;

pub const PSE36: u32 = 1 << 17;

pub const PSN: u32 = 1 << 18;

pub const CLFSH: u32 = 1 << 19;

pub const DTES: u32 = 1 << 21;

pub const ACPI: u32 = 1 << 22;

pub const MMX: u32 = 1 << 23;

pub const FXSR: u32 = 1 << 24;

pub const SSE: u32 = 1 << 25;

pub const SSE2: u32 = 1 << 26;

pub const SS: u32 = 1 << 27;

pub const HTT: u32 = 1 << 28;

pub const TM: u32 = 1 << 29;

pub const PBE: u32 = 1 << 31;

/// Every flag of the set is a single bit, and the flags stand here in
/// strictly rising order, so no two of them name the same bit.
pub proof fn lemma_flags_distinct()
    by (bit_vector)
    ensures
        is_single_bit(FPU),
        is_single_bit(VME),
        is_single_bit(DE),
        is_single_bit(PSE),
        is_single_bit(TSC),
        is_single_bit(MSR),
        is_single_bit(PAE),
        is_single_bit(MCE),
        is_single_bit(CX8),
        is_single_bit(APIC),
        is_single_bit(SEP),
        is_single_bit(MTRR),
        is_single_bit(PGE),
        is_single_bit(MCA),
        is_single_bit(CMOV),
        is_single_bit(PAT),
        is_single_bit(PSE36),
        is_single_bit(PSN),
        is_single_bit(CLFSH),
        is_single_bit(DTES),
        is_single_bit(ACPI),
        is_single_bit(MMX),
        is_single_bit(FXSR),
        is_single_bit(SSE),
        is_single_bit(SSE2),
        is_single_bit(SS),
        is_single_bit(HTT),
        is_single_bit(TM),
        is_single_bit(PBE),
        FPU < VME < DE < PSE < TSC < MSR < PAE < MCE < CX8 < APIC < SEP < MTRR < PGE < MCA
            < CMOV < PAT < PSE36 < PSN < CLFSH < DTES < ACPI < MMX < FXSR < SSE < SSE2 < SS < HTT
            < TM < PBE,
{
}

} // verus!
