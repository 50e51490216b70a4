//! Leaf `0x0000_0007`, sub-leaf `0`, register `ebx`: the structured extended features.

use vstd::prelude::*;
use crate::flags::is_single_bit;

verus! {

/// The leaf that reports this set.
pub const LEAF: u32 = 0x0000_0007;

/// The sub-leaf that reports this set.
pub const SUBLEAF: u32 = 0;

pub const FSGSBASE: u32 = 1 << 0;

pub const TSC_ADJUST: u32 = 1 << 1;

pub const SGX: u32 = 1 << 2;

pub const BMI1: u32 = 1 << 3;

pub const HLT: u32 = 1 << 4;

pub const AVX2: u32 = 1 << 5;

pub const FDP_EXCP_ONLY: u32 = 1 << 6;

pub const SMEP: u32 = 1 << 7;

pub const BMI2: u32 = 1 << 8;

pub const ERMS: u32 = 1 << 9;

pub const INVPCID: u32 = 1 << 10;

pub const RTM: u32 = 1 << 11;

pub const RDTM: u32 = 1 << 12;

pub const DFPU_CS_DS: u32 = 1 << 13;

pub const MPX: u32 = 1 << 14;

pub const RDTA: u32 = 1 << 15;

pub const AVX512F: u32 = 1 << 16;

pub const AVX512DQ: u32 = 1 << 17;

pub const RDSEED: u32 = 1 << 18;

pub const ADX: u32 = 1 << 19;

pub const SMAP: u32 = 1 << 20;

pub const AVX512_IFMA: u32 = 1 << 21;

pub const CLFLUSHOPT: u32 = 1 << 23;

pub const CLWB: u32 = 1 << 24;

pub const IPT: u32 = 1 << 25;

pub const AVX512PF: u32 = 1 << 26;

pub const AVX512ER: u32 = 1 << 27;

pub const AVX512CD: u32 = 1 << 28;

pub const SHA: u32 = 1 << 29;

pub const AVX512BW: u32 = 1 << 30;

pub const AVX512VL: u32 = 1 << 31;

/// Every flag of the set is a single bit, and the flags stand here in
/// strictly rising order, so no two of them name the same bit.
pub proof fn lemma_flags_distinct()
    by (bit_vector)
    ensures
        is_single_bit(FSGSBASE),
        is_single_bit(TSC_ADJUST),
        is_single_bit(SGX),
        is_single_bit(BMI1),
        is_single_bit(HLT),
        is_single_bit(AVX2),
        is_single_bit(FDP_EXCP_ONLY),
        is_single_bit(SMEP),
        is_single_bit(BMI2),
        is_single_bit(ERMS),
        is_single_bit(INVPCID),
        is_single_bit(RTM),
        is_single_bit(RDTM),
        is_single_bit(DFPU_CS_DS),
        is_single_bit(MPX),
        is_single_bit(RDTA),
        is_single_bit(AVX512F),
        is_single_bit(AVX512DQ),
        is_single_bit(RDSEED),
        is_single_bit(ADX),
        is_single_bit(SMAP),
        is_single_bit(AVX512_IFMA),
        is_single_bit(CLFLUSHOPT),
        is_single_bit(CLWB),
        is_single_bit(IPT),
        is_single_bit(AVX512PF),
        is_single_bit(AVX512ER),
        is_single_bit(AVX512CD),
        is_single_bit(SHA),
        is_single_bit(AVX512BW),
        is_single_bit(AVX512VL),
        FSGSBASE < TSC_ADJUST < SGX < BMI1 < HLT < AVX2 < FDP_EXCP_ONLY < SMEP < BMI2 < ERMS
            < INVPCID < RTM < RDTM < DFPU_CS_DS < MPX < RDTA < AVX512F < AVX512DQ < RDSEED < ADX
            < SMAP < AVX512_IFMA < CLFLUSHOPT < CLWB < IPT < AVX512PF < AVX512ER < AVX512CD
            < SHA < AVX512BW < AVX512VL,
{
}

} // verus!
